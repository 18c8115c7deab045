//! Argument analysis: reading `--flag` values from an argument list,
//! partitioning the raw arguments into the tool's own flags, the arguments
//! forwarded to the build tool, and the arguments passed through verbatim
//! after the separator, and classifying the subcommand word.

use vstd::prelude::*;
use vstd::string::*;

use crate::errors::CarefulError;
use crate::strutil::{
    find_char, spec_find_char, spec_has_prefix, str_eq, strip_prefix_str,
};

verus! {

/// The values of a `--flag`, read in order from the arguments before the
/// first separator: either the argument after one equal to `name`, or the
/// part after `=` in an argument of the shape `name=value`.
pub open spec fn spec_arg_flag_values(args: Seq<Seq<char>>, name: Seq<char>) -> Seq<Seq<char>>
    decreases args.len(),
{
    if args.len() == 0 {
        Seq::empty()
    } else if args[0] == "--"@ {
        Seq::empty()
    } else if args[0] == name {
        if args.len() >= 2 {
            seq![args[1]] + spec_arg_flag_values(args.skip(2), name)
        } else {
            Seq::empty()
        }
    } else {
        match spec_flag_eq_value(args[0], name) {
            Some(v) => seq![v] + spec_arg_flag_values(args.skip(1), name),
            None => spec_arg_flag_values(args.skip(1), name),
        }
    }
}

/// The value carried by an argument of the shape `name=value`.
pub open spec fn spec_flag_eq_value(arg: Seq<char>, name: Seq<char>) -> Option<Seq<char>> {
    if spec_has_prefix(arg, name) && arg.len() > name.len() && arg[name.len() as int] == '=' {
        Some(arg.skip(name.len() as int + 1))
    } else {
        None
    }
}

/// Tests one argument for the shape `name=value`.
fn flag_eq_value(arg: &String, name: &str) -> (r: Option<String>)
    ensures
        r.deep_view() == spec_flag_eq_value(arg@, name@),
{
    match strip_prefix_str(arg.as_str(), name) {
        None => None,
        Some(rest) => {
            let restlen = rest.as_str().unicode_len();
            if restlen > 0 && rest.as_str().get_char(0) == '=' {
                let v = rest.as_str().substring_char(1, restlen);
                proof {
                    assert(rest@[0] == arg@[name@.len() as int]);
                    assert(v@ =~= arg@.skip(name@.len() as int + 1));
                }
                Some(v.to_owned())
            } else {
                None
            }
        },
    }
}

fn arg_flag_values_from(args: &Vec<String>, name: &str, i: usize) -> (r: Vec<String>)
    requires
        i <= args.len(),
    ensures
        r.deep_view() == spec_arg_flag_values(args.deep_view().skip(i as int), name@),
    decreases args.len() - i,
{
    let ghost all = args.deep_view();
    let ghost s = args.deep_view().skip(i as int);
    if i == args.len() {
        let r: Vec<String> = Vec::new();
        assert(r.deep_view() =~= spec_arg_flag_values(s, name@));
        r
    } else {
        let a = &args[i];
        assert(a@ == s[0]);
        if str_eq(a.as_str(), "--") {
            let r: Vec<String> = Vec::new();
            assert(r.deep_view() =~= spec_arg_flag_values(s, name@));
            r
        } else if str_eq(a.as_str(), name) {
            if i + 1 < args.len() {
                let v = args[i + 1].clone();
                assert(v@ == s[1]);
                let mut r = arg_flag_values_from(args, name, i + 2);
                proof {
                    assert(all.skip(i + 2) =~= s.skip(2));
                }
                r.insert(0, v);
                assert(r.deep_view() =~= spec_arg_flag_values(s, name@));
                r
            } else {
                let r: Vec<String> = Vec::new();
                assert(r.deep_view() =~= spec_arg_flag_values(s, name@));
                r
            }
        } else {
            let eqv = flag_eq_value(a, name);
            let mut r = arg_flag_values_from(args, name, i + 1);
            proof {
                assert(all.skip(i + 1) =~= s.skip(1));
            }
            match eqv {
                Some(v) => {
                    r.insert(0, v);
                    assert(r.deep_view() =~= spec_arg_flag_values(s, name@));
                    r
                },
                None => {
                    assert(r.deep_view() =~= spec_arg_flag_values(s, name@));
                    r
                },
            }
        }
    }
}

/// Every value of a `--flag` among the arguments before the separator.
pub fn get_arg_flag_values(args: &Vec<String>, name: &str) -> (r: Vec<String>)
    ensures
        r.deep_view() == spec_arg_flag_values(args.deep_view(), name@),
{
    let r = arg_flag_values_from(args, name, 0);
    assert(args.deep_view().skip(0) =~= args.deep_view());
    r
}

/// The first value of a `--flag`, if one is given before the separator.
pub fn get_arg_flag_value(args: &Vec<String>, name: &str) -> (r: Option<String>)
    ensures
        ({
            let vals = spec_arg_flag_values(args.deep_view(), name@);
            match r {
                Some(v) => vals.len() > 0 && v@ == vals[0],
                None => vals.len() == 0,
            }
        }),
{
    let mut vals = get_arg_flag_values(args, name);
    if vals.len() > 0 {
        let v = vals.remove(0);
        Some(v)
    } else {
        None
    }
}

/// How often an argument equal to `name` stands before the separator.
pub open spec fn spec_num_arg_flag(args: Seq<Seq<char>>, name: Seq<char>) -> nat
    decreases args.len(),
{
    if args.len() == 0 {
        0
    } else if args[0] == "--"@ {
        0
    } else {
        (if args[0] == name {
            1nat
        } else {
            0nat
        }) + spec_num_arg_flag(args.skip(1), name)
    }
}

fn num_arg_flag_from(args: &Vec<String>, name: &str, i: usize) -> (r: usize)
    requires
        i <= args.len(),
    ensures
        r == spec_num_arg_flag(args.deep_view().skip(i as int), name@),
        r <= args.len() - i,
    decreases args.len() - i,
{
    let ghost all = args.deep_view();
    let ghost s = args.deep_view().skip(i as int);
    if i == args.len() {
        0
    } else {
        let a = &args[i];
        assert(a@ == s[0]);
        if str_eq(a.as_str(), "--") {
            0
        } else {
            let c: usize = if str_eq(a.as_str(), name) {
                1
            } else {
                0
            };
            let rest = num_arg_flag_from(args, name, i + 1);
            proof {
                assert(all.skip(i + 1) =~= s.skip(1));
            }
            c + rest
        }
    }
}

/// Determines how many times an argument equal to `name` is present before
/// the separator.
pub fn num_arg_flag(args: &Vec<String>, name: &str) -> (r: usize)
    ensures
        r == spec_num_arg_flag(args.deep_view(), name@),
{
    let r = num_arg_flag_from(args, name, 0);
    assert(args.deep_view().skip(0) =~= args.deep_view());
    r
}

/// `name v` pairs, one for each value in `vals`.
pub open spec fn spec_flag_pairs(name: Seq<char>, vals: Seq<Seq<char>>) -> Seq<Seq<char>>
    decreases vals.len(),
{
    if vals.len() == 0 {
        Seq::empty()
    } else {
        seq![name, vals[0]] + spec_flag_pairs(name, vals.skip(1))
    }
}

fn flag_pairs_from(name: &str, vals: &Vec<String>, j: usize) -> (r: Vec<String>)
    requires
        j <= vals.len(),
    ensures
        r.deep_view() == spec_flag_pairs(name@, vals.deep_view().skip(j as int)),
    decreases vals.len() - j,
{
    let ghost s = vals.deep_view().skip(j as int);
    if j == vals.len() {
        let r: Vec<String> = Vec::new();
        assert(r.deep_view() =~= spec_flag_pairs(name@, s));
        r
    } else {
        let v = vals[j].clone();
        assert(v@ == s[0]);
        let mut r = flag_pairs_from(name, vals, j + 1);
        proof {
            assert(vals.deep_view().skip(j + 1) =~= s.skip(1));
        }
        r.insert(0, v);
        r.insert(0, name.to_owned());
        assert(r.deep_view() =~= spec_flag_pairs(name@, s));
        r
    }
}

/// The extra flags a nested build-tool invocation needs so that it behaves
/// like the current one: the unstable-options gate, every `--config` value,
/// and the manifest path if one was given.
pub open spec fn spec_cargo_extra_flags(args: Seq<Seq<char>>) -> Seq<Seq<char>> {
    let cfg = spec_arg_flag_values(args, "--config"@);
    let manifest = spec_arg_flag_values(args, "--manifest-path"@);
    seq!["-Zunstable-options"@] + spec_flag_pairs("--config"@, cfg) + (if manifest.len() > 0 {
        seq!["--manifest-path"@, manifest[0]]
    } else {
        Seq::empty()
    })
}

/// Computes the flags that make a nested build-tool invocation behave like
/// the current one.
pub fn cargo_extra_flags(args: &Vec<String>) -> (r: Vec<String>)
    ensures
        r.deep_view() == spec_cargo_extra_flags(args.deep_view()),
{
    let mut r: Vec<String> = Vec::new();
    r.push("-Zunstable-options".to_owned());
    let cfg = get_arg_flag_values(args, "--config");
    let mut pairs = flag_pairs_from("--config", &cfg, 0);
    proof {
        assert(cfg.deep_view().skip(0) =~= cfg.deep_view());
    }
    r.append(&mut pairs);
    match get_arg_flag_value(args, "--manifest-path") {
        Some(m) => {
            r.push("--manifest-path".to_owned());
            r.push(m);
            assert(r.deep_view() =~= spec_cargo_extra_flags(args.deep_view()));
        },
        None => {
            assert(r.deep_view() =~= spec_cargo_extra_flags(args.deep_view()));
        },
    }
    r
}


/// The tool-flag prefix that marks an argument as addressed to this tool.
pub open spec fn careful_prefix() -> Seq<char> {
    "-Zcareful-"@
}

/// The one recognized tool-flag key.
pub open spec fn sanitizer_key() -> Seq<char> {
    "sanitizer"@
}

/// The sanitizer chosen when the flag names none.
pub open spec fn default_sanitizer() -> Seq<char> {
    "address"@
}

/// The sanitizer request an argument carries: the value after `=`, the
/// default when the recognized key stands alone, and nothing when the
/// argument is not a recognized tool flag.
pub open spec fn spec_careful_sanitizer(arg: Seq<char>) -> Option<Seq<char>> {
    if spec_has_prefix(arg, careful_prefix()) {
        let rest = arg.skip(careful_prefix().len() as int);
        match spec_find_char(rest, '=') {
            None => if rest == sanitizer_key() {
                Some(default_sanitizer())
            } else {
                None
            },
            Some(i) => if rest.subrange(0, i) == sanitizer_key() {
                Some(rest.skip(i + 1))
            } else {
                None
            },
        }
    } else {
        None
    }
}

/// The split of the raw arguments, while or after folding them one by one.
pub ghost struct SplitSpec {
    /// Arguments forwarded to the delegated build tool.
    pub cargo_args: Seq<Seq<char>>,
    /// Arguments after the separator, passed through verbatim.
    pub passthrough: Seq<Seq<char>>,
    /// The sanitizer request of the last recognized tool flag.
    pub sanitizer: Option<Seq<char>>,
    /// The first tool flag with an unrecognized key, if any.
    pub bad_flag: Option<Seq<char>>,
    /// Whether the separator has been passed.
    pub seen_sep: bool,
}

pub open spec fn split_init() -> SplitSpec {
    SplitSpec {
        cargo_args: Seq::empty(),
        passthrough: Seq::empty(),
        sanitizer: None,
        bad_flag: None,
        seen_sep: false,
    }
}

/// How one argument moves the split forward.
pub open spec fn split_step(st: SplitSpec, a: Seq<char>) -> SplitSpec {
    if st.seen_sep {
        SplitSpec { passthrough: st.passthrough.push(a), ..st }
    } else if a == "--"@ {
        SplitSpec { seen_sep: true, ..st }
    } else if spec_has_prefix(a, careful_prefix()) {
        match spec_careful_sanitizer(a) {
            Some(v) => SplitSpec { sanitizer: Some(v), ..st },
            None => SplitSpec {
                bad_flag: if st.bad_flag is None {
                    Some(a)
                } else {
                    st.bad_flag
                },
                ..st
            },
        }
    } else {
        SplitSpec { cargo_args: st.cargo_args.push(a), ..st }
    }
}

/// The split of a whole argument list, folded left to right.
pub open spec fn split_fold(args: Seq<Seq<char>>) -> SplitSpec
    decreases args.len(),
{
    if args.len() == 0 {
        split_init()
    } else {
        split_step(split_fold(args.drop_last()), args.last())
    }
}

/// The outcome of partitioning the raw arguments.
pub struct SplitArgs {
    /// Arguments forwarded to the delegated build tool.
    pub cargo_args: Vec<String>,
    /// Arguments after the separator, passed through verbatim.
    pub passthrough: Vec<String>,
    /// The sanitizer request of the last recognized tool flag, if any.
    pub sanitizer: Option<String>,
    /// The first tool flag with an unrecognized key, if any.
    pub bad_flag: Option<String>,
    /// Whether a separator was present.
    pub seen_sep: bool,
}

impl SplitArgs {
    /// The split agrees with the fold of the argument views.
    pub open spec fn matches(&self, f: SplitSpec) -> bool {
        self.cargo_args.deep_view() == f.cargo_args && self.passthrough.deep_view()
            == f.passthrough && self.sanitizer.deep_view() == f.sanitizer
            && self.bad_flag.deep_view() == f.bad_flag && self.seen_sep == f.seen_sep
    }
}

/// Partitions the raw arguments into the tool's own flags, the arguments for
/// the delegated build tool, and the verbatim remainder after the separator.
pub fn split_args(args: &Vec<String>) -> (r: SplitArgs)
    ensures
        r.matches(split_fold(args.deep_view())),
{
    let ghost all = args.deep_view();
    let mut r = SplitArgs {
        cargo_args: Vec::new(),
        passthrough: Vec::new(),
        sanitizer: None,
        bad_flag: None,
        seen_sep: false,
    };
    let mut i: usize = 0;
    proof {
        assert(all.subrange(0, 0) =~= Seq::<Seq<char>>::empty());
        assert(r.cargo_args.deep_view() =~= Seq::<Seq<char>>::empty());
        assert(r.passthrough.deep_view() =~= Seq::<Seq<char>>::empty());
    }
    while i < args.len()
        invariant
            i <= args.len(),
            all == args.deep_view(),
            r.matches(split_fold(all.subrange(0, i as int))),
        decreases args.len() - i,
    {
        let ghost pre = all.subrange(0, i as int);
        let ghost cur = all.subrange(0, i as int + 1);
        proof {
            assert(cur.drop_last() =~= pre);
            assert(cur.last() == all[i as int]);
        }
        let a = &args[i];
        assert(a@ == all[i as int]);
        if r.seen_sep {
            r.passthrough.push(a.clone());
            assert(r.passthrough.deep_view() =~= split_fold(cur).passthrough);
        } else if str_eq(a.as_str(), "--") {
            r.seen_sep = true;
        } else {
            match strip_prefix_str(a.as_str(), "-Zcareful-") {
                Some(rest) => {
                    let restlen = rest.as_str().unicode_len();
                    match find_char(rest.as_str(), '=') {
                        None => {
                            if str_eq(rest.as_str(), "sanitizer") {
                                r.sanitizer = Some("address".to_owned());
                            } else if r.bad_flag.is_none() {
                                r.bad_flag = Some(a.clone());
                            }
                        },
                        Some(eq_at) => {
                            proof {
                                crate::strutil::lemma_find_char_first(rest@, '=');
                            }
                            let key = rest.as_str().substring_char(0, eq_at);
                            let v = rest.as_str().substring_char(eq_at + 1, restlen);
                            proof {
                                assert(key@ =~= rest@.subrange(0, eq_at as int));
                                assert(v@ =~= rest@.skip(eq_at as int + 1));
                            }
                            if str_eq(key, "sanitizer") {
                                r.sanitizer = Some(v.to_owned());
                            } else if r.bad_flag.is_none() {
                                r.bad_flag = Some(a.clone());
                            }
                        },
                    }
                },
                None => {
                    r.cargo_args.push(a.clone());
                    assert(r.cargo_args.deep_view() =~= split_fold(cur).cargo_args);
                },
            }
        }
        i += 1;
    }
    proof {
        assert(all.subrange(0, args.deep_view().len() as int) =~= all);
    }
    r
}

/// Partitions the raw arguments and rejects an unrecognized tool flag.
pub fn split_args_checked(args: &Vec<String>) -> (r: Result<SplitArgs, CarefulError>)
    ensures
        ({
            let f = split_fold(args.deep_view());
            match r {
                Ok(sa) => f.bad_flag is None && sa.matches(f),
                Err(e) => f.bad_flag is Some && e == CarefulError::UnsupportedFlag,
            }
        }),
{
    let sa = split_args(args);
    if sa.bad_flag.is_some() {
        Err(CarefulError::UnsupportedFlag)
    } else {
        Ok(sa)
    }
}

/// Arguments without a separator never set `seen_sep`.
pub proof fn lemma_no_sep_fold(args: Seq<Seq<char>>)
    requires
        forall|i: int| 0 <= i < args.len() ==> args[i] != "--"@,
    ensures
        !split_fold(args).seen_sep,
    decreases args.len(),
{
    if args.len() > 0 {
        lemma_no_sep_fold(args.drop_last());
    }
}

/// Flag precedence: among the tokens before any separator, the last
/// occurrence of the recognized sanitizer flag decides the variant, whatever
/// sanitizer requests came before it.
pub proof fn lemma_sanitizer_last_wins(args: Seq<Seq<char>>, arg: Seq<char>)
    requires
        forall|i: int| 0 <= i < args.len() ==> args[i] != "--"@,
        spec_careful_sanitizer(arg) is Some,
    ensures
        split_fold(args.push(arg)).sanitizer == spec_careful_sanitizer(arg),
{
    lemma_no_sep_fold(args);
    reveal_strlit("--");
    reveal_strlit("-Zcareful-");
    assert(args.push(arg).drop_last() =~= args);
    assert(args.push(arg).last() == arg);
    assert(split_fold(args.push(arg)) == split_step(split_fold(args), arg));
    assert(spec_has_prefix(arg, careful_prefix()));
}

/// What the subcommand word asks for.
pub open spec fn spec_subcommand(
    word: Seq<char>,
    next: Option<Seq<char>>,
) -> Result<Option<Seq<Seq<char>>>, CarefulError> {
    if word == "setup"@ {
        Ok(None)
    } else if word == "test"@ || word == "t"@ || word == "run"@ || word == "r"@ || word
        == "build"@ || word == "b"@ {
        Ok(Some(seq![word]))
    } else if word == "nextest"@ {
        match next {
            Some(v) => Ok(Some(seq![word, v])),
            None => Err(CarefulError::BadSubcommand),
        }
    } else {
        Err(CarefulError::BadSubcommand)
    }
}

/// Classifies the subcommand word: the setup-only request yields no
/// delegated words; a delegated subcommand yields the words the build tool
/// is invoked with; the nested runner needs the following verb.
pub fn subcommand_words(word: &String, next: Option<&String>) -> (r: Result<
    Option<Vec<String>>,
    CarefulError,
>)
    ensures
        ({
            let s = spec_subcommand(word@, next.deep_view());
            match r {
                Ok(None) => s == Ok::<Option<Seq<Seq<char>>>, CarefulError>(
                    None::<Seq<Seq<char>>>,
                ),
                Ok(Some(v)) => s matches Ok(Some(sv)) && v.deep_view() == sv,
                Err(e) => s matches Err(se) && e == se,
            }
        }),
{
    if str_eq(word.as_str(), "setup") {
        Ok(None)
    } else if str_eq(word.as_str(), "test") || str_eq(word.as_str(), "t") || str_eq(
        word.as_str(),
        "run",
    ) || str_eq(word.as_str(), "r") || str_eq(word.as_str(), "build") || str_eq(
        word.as_str(),
        "b",
    ) {
        let mut v: Vec<String> = Vec::new();
        v.push(word.clone());
        assert(v.deep_view() =~= seq![word@]);
        Ok(Some(v))
    } else if str_eq(word.as_str(), "nextest") {
        match next {
            Some(verb) => {
                let mut v: Vec<String> = Vec::new();
                v.push(word.clone());
                v.push(verb.clone());
                assert(v.deep_view() =~= seq![word@, verb@]);
                Ok(Some(v))
            },
            None => Err(CarefulError::BadSubcommand),
        }
    } else {
        Err(CarefulError::BadSubcommand)
    }
}

} // verus!

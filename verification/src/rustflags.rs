//! The instrumentation flag set, the resolution of ambient build flags from
//! their three sources, and the assembly and encoding of the flag list the
//! delegated invocation carries.

use vstd::prelude::*;
use vstd::string::*;

use crate::errors::CarefulError;
use crate::strutil::{
    concat_str, join_with, spec_join, spec_split_char, spec_trim, split_on_char, trim_str,
};

verus! {

/// The fixed baseline of instrumentation flags, applied before any
/// user-supplied flag so that later flags can override them.
pub open spec fn spec_careful_flags() -> Seq<Seq<char>> {
    seq![
        "-Cdebug-assertions=on"@,
        "-Zextra-const-ub-checks"@,
        "-Zstrict-init-checks"@,
        "--cfg"@,
        "careful"@,
    ]
}

/// The fixed baseline of instrumentation flags.
pub fn careful_flags() -> (r: Vec<String>)
    ensures
        r.deep_view() == spec_careful_flags(),
{
    let mut r: Vec<String> = Vec::new();
    r.push("-Cdebug-assertions=on".to_owned());
    r.push("-Zextra-const-ub-checks".to_owned());
    r.push("-Zstrict-init-checks".to_owned());
    r.push("--cfg".to_owned());
    r.push("careful".to_owned());
    assert(r.deep_view() =~= spec_careful_flags());
    r
}

/// What parsing a JSON array of strings yields; a function of the text
/// alone.
pub uninterp spec fn json_string_list(text: Seq<char>) -> Option<Seq<Seq<char>>>;

/// Relies on `serde_json::from_str::<Vec<String>>`: parses a JSON array of
/// strings, and fails on any other text; the outcome depends on the text
/// alone.
#[verifier::external_body]
fn parse_json_string_list(text: &str) -> (r: Option<Vec<String>>)
    ensures
        r.deep_view() == json_string_list(text@),
{
    serde_json::from_str::<Vec<String>>(text).ok()
}

/// The tokens of a legacy space-separated flag string: each segment trimmed,
/// empty segments dropped.
pub open spec fn spec_legacy_tokens(list: Seq<Seq<char>>) -> Seq<Seq<char>>
    decreases list.len(),
{
    if list.len() == 0 {
        Seq::empty()
    } else {
        let t = spec_trim(list[0]);
        (if t.len() > 0 {
            seq![t]
        } else {
            Seq::empty()
        }) + spec_legacy_tokens(list.skip(1))
    }
}

fn legacy_tokens_from(list: &Vec<String>, j: usize) -> (r: Vec<String>)
    requires
        j <= list.len(),
    ensures
        r.deep_view() == spec_legacy_tokens(list.deep_view().skip(j as int)),
    decreases list.len() - j,
{
    let ghost s = list.deep_view().skip(j as int);
    if j == list.len() {
        let r: Vec<String> = Vec::new();
        assert(r.deep_view() =~= spec_legacy_tokens(s));
        r
    } else {
        let t = trim_str(list[j].as_str());
        assert(list[j as int]@ == s[0]);
        let mut r = legacy_tokens_from(list, j + 1);
        proof {
            assert(list.deep_view().skip(j + 1) =~= s.skip(1));
        }
        if t.as_str().unicode_len() > 0 {
            r.insert(0, t);
        }
        assert(r.deep_view() =~= spec_legacy_tokens(s));
        r
    }
}

/// The build flags the ambient configuration asks for, resolved with the
/// documented precedence: the encoded variable, then the legacy
/// space-separated variable, then the build tool's own configuration, read
/// from the text its query printed; a failed or unreadable query is an
/// error, and no source at all means no flags.
pub open spec fn spec_rustflags(
    encoded: Option<Seq<char>>,
    legacy: Option<Seq<char>>,
    config_json: Option<Seq<char>>,
) -> Result<Seq<Seq<char>>, CarefulError> {
    match encoded {
        Some(e) => if e.len() == 0 {
            Ok(Seq::empty())
        } else {
            Ok(spec_split_char(e, '\x1f'))
        },
        None => match legacy {
            Some(l) => Ok(spec_legacy_tokens(spec_split_char(l, ' '))),
            None => match config_json {
                Some(j) => match json_string_list(j) {
                    Some(list) => Ok(list),
                    None => Err(CarefulError::ConfigQueryFailed),
                },
                None => Ok(Seq::empty()),
            },
        },
    }
}

/// Resolves the ambient build flags from their three sources, in order of
/// precedence: the encoded variable, the legacy variable, the build tool's
/// configuration query.
pub fn get_rustflags(
    encoded: Option<&String>,
    legacy: Option<&String>,
    config_json: Option<&String>,
) -> (r: Result<Vec<String>, CarefulError>)
    ensures
        ({
            let s = spec_rustflags(encoded.deep_view(), legacy.deep_view(), config_json.deep_view());
            match r {
                Ok(v) => s matches Ok(sv) && v.deep_view() == sv,
                Err(e) => s matches Err(se) && e == se,
            }
        }),
{
    match encoded {
        Some(e) => {
            if e.as_str().unicode_len() == 0 {
                let v: Vec<String> = Vec::new();
                assert(v.deep_view() =~= Seq::<Seq<char>>::empty());
                Ok(v)
            } else {
                Ok(split_on_char(e.as_str(), '\x1f'))
            }
        },
        None => {
            match legacy {
                Some(l) => {
                    let segments = split_on_char(l.as_str(), ' ');
                    let toks = legacy_tokens_from(&segments, 0);
                    proof {
                        assert(segments.deep_view().skip(0) =~= segments.deep_view());
                    }
                    Ok(toks)
                },
                None => {
                    match config_json {
                        Some(j) => {
                            match parse_json_string_list(j.as_str()) {
                                Some(list) => Ok(list),
                                None => Err(CarefulError::ConfigQueryFailed),
                            }
                        },
                        None => {
                            let v: Vec<String> = Vec::new();
                            assert(v.deep_view() =~= Seq::<Seq<char>>::empty());
                            Ok(v)
                        },
                    }
                },
            }
        },
    }
}

/// The variant-selection flag handed to the compiler.
pub open spec fn spec_sanitizer_flag(san: Seq<char>) -> Seq<char> {
    "-Zsanitizer="@ + san
}

pub fn sanitizer_flag(san: &str) -> (r: String)
    ensures
        r@ == spec_sanitizer_flag(san@),
{
    concat_str("-Zsanitizer=", san)
}

/// Appends clones of every element of `items`.
pub fn extend_clone(r: &mut Vec<String>, items: &Vec<String>)
    ensures
        final(r).deep_view() == old(r).deep_view() + items.deep_view(),
{
    let ghost base = old(r).deep_view();
    let mut i: usize = 0;
    proof {
        assert(r.deep_view() =~= base + items.deep_view().subrange(0, 0));
    }
    while i < items.len()
        invariant
            i <= items.len(),
            r.deep_view() == base + items.deep_view().subrange(0, i as int),
        decreases items.len() - i,
    {
        let c = items[i].clone();
        assert(c@ == items.deep_view()[i as int]);
        let ghost prev = r.deep_view();
        r.push(c);
        proof {
            let rhs = base + items.deep_view().subrange(0, i as int + 1);
            assert(items.deep_view().subrange(0, i as int + 1).len() == i + 1);
            assert(r.deep_view().len() == prev.len() + 1);
            assert(prev.len() == base.len() + i);
            assert(r.deep_view().len() == rhs.len());
            assert forall|j: int| 0 <= j < prev.len() implies r.deep_view()[j] == prev[j] by {}
            assert(r.deep_view()[prev.len() as int] == items.deep_view()[i as int]);
            assert forall|j: int| 0 <= j < rhs.len() implies r.deep_view()[j] == rhs[j] by {
                if j < base.len() {
                    assert(rhs[j] == base[j]);
                    assert(prev[j] == base[j]);
                } else if j < prev.len() {
                    assert(rhs[j] == items.deep_view().subrange(0, i as int + 1)[j - base.len()]);
                    assert(rhs[j] == items.deep_view()[j - base.len()]);
                    assert(prev[j] == items.deep_view().subrange(0, i as int)[j - base.len()]);
                } else {
                    assert(j == prev.len());
                    assert(rhs[j] == items.deep_view()[i as int]);
                }
            }
            assert(r.deep_view() =~= rhs);
        }
        i += 1;
    }
    proof {
        assert(items.deep_view().subrange(0, items.deep_view().len() as int) =~= items.deep_view());
    }
}

/// The flag list of the delegated invocation: the baseline instrumentation
/// flags first, then the ambient flags so they may override, then the
/// sysroot override, and the variant-selection flag last.
pub open spec fn spec_delegated_flags(
    rustflags: Seq<Seq<char>>,
    sysroot: Seq<char>,
    sanitizer: Option<Seq<char>>,
) -> Seq<Seq<char>> {
    spec_careful_flags() + rustflags + seq!["--sysroot"@, sysroot] + (match sanitizer {
        Some(s) => seq![spec_sanitizer_flag(s)],
        None => Seq::empty(),
    })
}

/// Assembles the flag list of the delegated invocation.
pub fn delegated_flags(rustflags: &Vec<String>, sysroot: &str, sanitizer: Option<&String>) -> (r:
    Vec<String>)
    ensures
        r.deep_view() == spec_delegated_flags(
            rustflags.deep_view(),
            sysroot@,
            sanitizer.deep_view(),
        ),
{
    let mut r = careful_flags();
    extend_clone(&mut r, rustflags);
    r.push("--sysroot".to_owned());
    r.push(sysroot.to_owned());
    match sanitizer {
        Some(s) => {
            let f = sanitizer_flag(s.as_str());
            r.push(f);
            assert(r.deep_view() =~= spec_delegated_flags(
                rustflags.deep_view(),
                sysroot@,
                sanitizer.deep_view(),
            ));
        },
        None => {
            assert(r.deep_view() =~= spec_delegated_flags(
                rustflags.deep_view(),
                sysroot@,
                sanitizer.deep_view(),
            ));
        },
    }
    r
}

/// The flag list of the synthetic sysroot build: the baseline flags, the
/// ambient flags so they may override, and the variant-selection flag last.
pub open spec fn spec_sysroot_build_flags(
    rustflags: Seq<Seq<char>>,
    sanitizer: Option<Seq<char>>,
) -> Seq<Seq<char>> {
    spec_careful_flags() + rustflags + (match sanitizer {
        Some(s) => seq![spec_sanitizer_flag(s)],
        None => Seq::empty(),
    })
}

/// Assembles the flag list of the synthetic sysroot build.
pub fn sysroot_build_flags(rustflags: &Vec<String>, sanitizer: Option<&String>) -> (r: Vec<String>)
    ensures
        r.deep_view() == spec_sysroot_build_flags(rustflags.deep_view(), sanitizer.deep_view()),
{
    let mut r = careful_flags();
    extend_clone(&mut r, rustflags);
    match sanitizer {
        Some(s) => {
            let f = sanitizer_flag(s.as_str());
            r.push(f);
            assert(r.deep_view() =~= spec_sysroot_build_flags(
                rustflags.deep_view(),
                sanitizer.deep_view(),
            ));
        },
        None => {
            assert(r.deep_view() =~= spec_sysroot_build_flags(
                rustflags.deep_view(),
                sanitizer.deep_view(),
            ));
        },
    }
    r
}

/// The encoding of a flag list for the flags environment variable: the flags
/// joined by the unit separator character.
pub open spec fn spec_encode_flags(flags: Seq<Seq<char>>) -> Seq<char> {
    spec_join(flags, "\x1f"@)
}

/// Encodes a flag list for the flags environment variable. A flag that
/// itself holds the separator character cannot be encoded faithfully;
/// `flags_encodable` tells the caller whether the encoding is exact.
pub fn encode_flags(flags: &Vec<String>) -> (r: String)
    ensures
        r@ == spec_encode_flags(flags.deep_view()),
{
    join_with(flags, "\x1f")
}

/// Whether no flag holds the separator character, so that encoding them is
/// exact.
pub fn flags_encodable(flags: &Vec<String>) -> (r: bool)
    ensures
        r == (forall|i: int|
            0 <= i < flags.deep_view().len() ==> !(#[trigger] flags.deep_view()[i]).contains(
                '\x1f',
            )),
{
    let mut i: usize = 0;
    while i < flags.len()
        invariant
            i <= flags.len(),
            forall|j: int|
                0 <= j < i ==> !(#[trigger] flags.deep_view()[j]).contains('\x1f'),
        decreases flags.len() - i,
    {
        match crate::strutil::find_char(flags[i].as_str(), '\x1f') {
            Some(_) => {
                proof {
                    crate::strutil::lemma_find_char_first(flags[i as int]@, '\x1f');
                    assert(flags.deep_view()[i as int].contains('\x1f'));
                }
                return false;
            },
            None => {
                proof {
                    crate::strutil::lemma_find_char_first(flags[i as int]@, '\x1f');
                    assert(!flags.deep_view()[i as int].contains('\x1f'));
                }
            },
        }
        i += 1;
    }
    true
}

} // verus!

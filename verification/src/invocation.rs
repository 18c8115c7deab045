//! The delegated invocation: the arguments and environment handed to the
//! build tool once the sysroot is ready.

use vstd::prelude::*;
use vstd::string::*;

use crate::args::SplitArgs;
use crate::rustflags::{
    delegated_flags, encode_flags, spec_delegated_flags, spec_encode_flags,
};
use crate::strutil::{concat_str, quote_path, spec_quoted, str_eq};

verus! {

/// The configuration argument that injects the main-thread checker into the
/// processes the build tool launches.
pub open spec fn spec_dyld_insert_config(path: Seq<char>) -> Seq<char> {
    "env.DYLD_INSERT_LIBRARIES="@ + spec_quoted(path)
}

/// Renders the configuration argument that injects the main-thread checker.
pub fn dyld_insert_config(path: &str) -> (r: String)
    ensures
        r@ == spec_dyld_insert_config(path@),
{
    let q = quote_path(path);
    concat_str("env.DYLD_INSERT_LIBRARIES=", q.as_str())
}

/// The argument list of the delegated invocation: the subcommand words; an
/// explicit target pinned when a sanitizer is active and the user gave none,
/// so that host helpers are not built instrumented; the checker injection,
/// when one applies; the forwarded arguments; and the verbatim remainder
/// after a separator.
pub open spec fn spec_delegation_args(
    subcommand: Seq<Seq<char>>,
    cargo_args: Seq<Seq<char>>,
    passthrough: Seq<Seq<char>>,
    target: Seq<char>,
    explicit_target: bool,
    sanitizer_active: bool,
    dyld_library: Option<Seq<char>>,
) -> Seq<Seq<char>> {
    subcommand + (if sanitizer_active && !explicit_target {
        seq!["--target"@, target]
    } else {
        Seq::empty()
    }) + (match dyld_library {
        Some(p) => seq!["--config"@, spec_dyld_insert_config(p)],
        None => Seq::empty(),
    }) + cargo_args + seq!["--"@] + passthrough
}

/// The environment of the delegated invocation: the identical encoded flag
/// list for the compiler and its documentation generator, and, for the
/// default memory sanitizer with no caller-set options, the suppression of
/// leak detection.
pub open spec fn spec_delegation_env(
    encoded_flags: Seq<char>,
    sanitizer: Option<Seq<char>>,
    asan_options_set: bool,
) -> Seq<(Seq<char>, Seq<char>)> {
    seq![("CARGO_ENCODED_RUSTFLAGS"@, encoded_flags), ("CARGO_ENCODED_RUSTDOCFLAGS"@, encoded_flags)]
        + (if sanitizer == Some("address"@) && !asan_options_set {
        seq![("ASAN_OPTIONS"@, "detect_leaks=0"@)]
    } else {
        Seq::empty()
    })
}

/// The delegated invocation: what the build tool is invoked with.
pub struct DelegationPlan {
    /// The arguments, subcommand words first.
    pub args: Vec<String>,
    /// The environment entries to set.
    pub env: Vec<(String, String)>,
}

/// Assembles the delegated invocation from the ready sysroot and the split
/// arguments.
pub fn plan_invocation(
    subcommand: &Vec<String>,
    split: &SplitArgs,
    rustflags: &Vec<String>,
    sysroot_dir: &str,
    target: &str,
    explicit_target: bool,
    asan_options_set: bool,
    dyld_library: Option<&String>,
) -> (r: DelegationPlan)
    ensures
        r.args.deep_view() == spec_delegation_args(
            subcommand.deep_view(),
            split.cargo_args.deep_view(),
            split.passthrough.deep_view(),
            target@,
            explicit_target,
            split.sanitizer is Some,
            dyld_library.deep_view(),
        ),
        r.env.deep_view() == spec_delegation_env(
            spec_encode_flags(
                spec_delegated_flags(
                    rustflags.deep_view(),
                    sysroot_dir@,
                    split.sanitizer.deep_view(),
                ),
            ),
            split.sanitizer.deep_view(),
            asan_options_set,
        ),
{
    let ghost target_part: Seq<Seq<char>> = if split.sanitizer is Some && !explicit_target {
        seq!["--target"@, target@]
    } else {
        Seq::empty()
    };
    let ghost dyld_part: Seq<Seq<char>> = match dyld_library.deep_view() {
        Some(p) => seq!["--config"@, spec_dyld_insert_config(p)],
        None => Seq::empty(),
    };
    let mut args: Vec<String> = Vec::new();
    crate::rustflags::extend_clone(&mut args, subcommand);
    let ghost a1 = subcommand.deep_view();
    proof {
        assert(args.deep_view() =~= a1);
    }
    if split.sanitizer.is_some() && !explicit_target {
        args.push("--target".to_owned());
        args.push(target.to_owned());
    }
    let ghost a2 = a1 + target_part;
    proof {
        assert(args.deep_view() =~= a2);
    }
    match dyld_library {
        Some(p) => {
            args.push("--config".to_owned());
            args.push(dyld_insert_config(p.as_str()));
        },
        None => {},
    }
    let ghost a3 = a2 + dyld_part;
    proof {
        assert(args.deep_view() =~= a3);
    }
    crate::rustflags::extend_clone(&mut args, &split.cargo_args);
    let ghost a4 = a3 + split.cargo_args.deep_view();
    args.push("--".to_owned());
    let ghost a5 = a4 + seq!["--"@];
    proof {
        assert(args.deep_view() =~= a5);
    }
    crate::rustflags::extend_clone(&mut args, &split.passthrough);
    let ghost a6 = a5 + split.passthrough.deep_view();
    proof {
        assert(args.deep_view() =~= a6);
        assert(a6 =~= spec_delegation_args(
            subcommand.deep_view(),
            split.cargo_args.deep_view(),
            split.passthrough.deep_view(),
            target@,
            explicit_target,
            split.sanitizer is Some,
            dyld_library.deep_view(),
        ));
    }
    let flags = delegated_flags(
        rustflags,
        sysroot_dir,
        match &split.sanitizer {
            Some(s) => Some(s),
            None => None,
        },
    );
    let encoded = encode_flags(&flags);
    let mut env: Vec<(String, String)> = Vec::new();
    env.push(("CARGO_ENCODED_RUSTFLAGS".to_owned(), encoded.clone()));
    env.push(("CARGO_ENCODED_RUSTDOCFLAGS".to_owned(), encoded));
    let suppress_leaks = match &split.sanitizer {
        Some(s) => str_eq(s.as_str(), "address") && !asan_options_set,
        None => false,
    };
    if suppress_leaks {
        env.push(("ASAN_OPTIONS".to_owned(), "detect_leaks=0".to_owned()));
    }
    proof {
        assert(env.deep_view() =~= spec_delegation_env(
            spec_encode_flags(
                spec_delegated_flags(
                    rustflags.deep_view(),
                    sysroot_dir@,
                    split.sanitizer.deep_view(),
                ),
            ),
            split.sanitizer.deep_view(),
            asan_options_set,
        ));
    }
    DelegationPlan { args, env }
}

} // verus!

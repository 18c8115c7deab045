use cargo_careful::args::split_args;
use cargo_careful::invocation::{dyld_insert_config, plan_invocation};

fn strs(v: &[&str]) -> Vec<String> {
    v.iter().map(|s| s.to_string()).collect()
}

#[test]
fn fresh_cache_delegation_carries_baseline_then_sysroot() {
    let subcommand = strs(&["test"]);
    let split = split_args(&strs(&["--lib", "--", "--nocapture"]));
    let rustflags = strs(&["-Copt-level=1"]);
    let plan = plan_invocation(
        &subcommand,
        &split,
        &rustflags,
        "/cache",
        "x86_64-unknown-linux-gnu",
        false,
        false,
        None,
    );
    assert_eq!(plan.args, strs(&["test", "--lib", "--", "--nocapture"]));
    let expected_flags = "-Cdebug-assertions=on\x1f-Zextra-const-ub-checks\x1f-Zstrict-init-checks\x1f--cfg\x1fcareful\x1f-Copt-level=1\x1f--sysroot\x1f/cache";
    assert_eq!(
        plan.env,
        vec![
            ("CARGO_ENCODED_RUSTFLAGS".to_string(), expected_flags.to_string()),
            ("CARGO_ENCODED_RUSTDOCFLAGS".to_string(), expected_flags.to_string()),
        ]
    );
}

#[test]
fn sanitizer_pins_target_and_suppresses_leak_detection() {
    let subcommand = strs(&["run"]);
    let split = split_args(&strs(&["-Zcareful-sanitizer"]));
    let rustflags = strs(&[]);
    let plan = plan_invocation(
        &subcommand,
        &split,
        &rustflags,
        "/cache/address",
        "aarch64-apple-darwin",
        false,
        false,
        None,
    );
    assert_eq!(
        plan.args,
        strs(&["run", "--target", "aarch64-apple-darwin", "--"])
    );
    let last = plan.env.last().expect("environment must not be empty");
    assert_eq!(last, &("ASAN_OPTIONS".to_string(), "detect_leaks=0".to_string()));
    let flags = &plan.env[0].1;
    assert!(flags.ends_with("\x1f-Zsanitizer=address"));
}

#[test]
fn explicit_target_is_not_overridden() {
    let subcommand = strs(&["build"]);
    let split = split_args(&strs(&["-Zcareful-sanitizer=address"]));
    let plan = plan_invocation(
        &subcommand,
        &split,
        &strs(&[]),
        "/cache/address",
        "aarch64-apple-darwin",
        true,
        false,
        None,
    );
    assert_eq!(plan.args, strs(&["build", "--"]));
}

#[test]
fn caller_set_sanitizer_options_are_kept() {
    let subcommand = strs(&["test"]);
    let split = split_args(&strs(&["-Zcareful-sanitizer=address"]));
    let plan = plan_invocation(
        &subcommand,
        &split,
        &strs(&[]),
        "/cache/address",
        "t",
        true,
        true,
        None,
    );
    assert!(plan.env.iter().all(|(k, _)| k != "ASAN_OPTIONS"));
}

#[test]
fn checker_injection_is_quoted() {
    let subcommand = strs(&["run"]);
    let split = split_args(&strs(&[]));
    let lib = "/dev/di r/libMainThreadChecker.dylib".to_string();
    let plan = plan_invocation(
        &subcommand,
        &split,
        &strs(&[]),
        "/cache",
        "t",
        true,
        false,
        Some(&lib),
    );
    assert_eq!(
        plan.args,
        strs(&[
            "run",
            "--config",
            "env.DYLD_INSERT_LIBRARIES=\"/dev/di r/libMainThreadChecker.dylib\"",
            "--",
        ])
    );
    assert_eq!(
        dyld_insert_config("/a\"b\\c"),
        "env.DYLD_INSERT_LIBRARIES=\"/a\\\"b\\\\c\""
    );
}

use cargo_careful::args::{
    cargo_extra_flags, get_arg_flag_value, get_arg_flag_values, num_arg_flag, split_args,
    split_args_checked, subcommand_words,
};
use cargo_careful::CarefulError;

fn strs(v: &[&str]) -> Vec<String> {
    v.iter().map(|s| s.to_string()).collect()
}

#[test]
fn cfg_flag() {
    let flags = cargo_careful::rustflags::careful_flags();
    assert!(flags[3] == "--cfg" && flags[4] == "careful");
}

#[test]
fn argument_splitting_segments() {
    let args = strs(&["x", "y", "--", "z", "w"]);
    let split = split_args(&args);
    assert_eq!(split.cargo_args, strs(&["x", "y"]));
    assert_eq!(split.passthrough, strs(&["z", "w"]));
    assert_eq!(split.sanitizer, None);
    assert_eq!(split.bad_flag, None);
    assert!(split.seen_sep);
}

#[test]
fn sanitizer_flag_last_wins() {
    let args = strs(&["-Zcareful-sanitizer=thread", "-Zcareful-sanitizer"]);
    let split = split_args(&args);
    assert_eq!(split.sanitizer.as_deref(), Some("address"));

    let args = strs(&["-Zcareful-sanitizer", "-Zcareful-sanitizer=thread"]);
    let split = split_args(&args);
    assert_eq!(split.sanitizer.as_deref(), Some("thread"));
}

#[test]
fn sanitizer_flag_after_separator_is_forwarded() {
    let args = strs(&["--", "-Zcareful-sanitizer=thread"]);
    let split = split_args(&args);
    assert_eq!(split.sanitizer, None);
    assert_eq!(split.passthrough, strs(&["-Zcareful-sanitizer=thread"]));
}

#[test]
fn unrecognized_careful_flag_is_rejected() {
    let args = strs(&["-Zcareful-frobnicate=1"]);
    match split_args_checked(&args) {
        Err(e) => assert_eq!(e, CarefulError::UnsupportedFlag),
        Ok(_) => panic!("an unrecognized tool flag must be rejected"),
    }
}

#[test]
fn arg_flag_values_both_forms() {
    let args = strs(&["--config", "a", "--config=b", "--", "--config", "c"]);
    let vals = get_arg_flag_values(&args, "--config");
    assert_eq!(vals, strs(&["a", "b"]));
}

#[test]
fn arg_flag_value_takes_first() {
    let args = strs(&["--target", "t1", "--target", "t2"]);
    assert_eq!(get_arg_flag_value(&args, "--target").as_deref(), Some("t1"));
    assert_eq!(get_arg_flag_value(&args, "--manifest-path"), None);
}

#[test]
fn arg_flag_similar_name_is_skipped() {
    let args = strs(&["--target-dir", "d", "--target=t"]);
    assert_eq!(get_arg_flag_value(&args, "--target").as_deref(), Some("t"));
}

#[test]
fn num_arg_flag_stops_at_separator() {
    let args = strs(&["-v", "-v", "--", "-v"]);
    assert_eq!(num_arg_flag(&args, "-v"), 2);
}

#[test]
fn cargo_extra_flags_forwards_config_and_manifest() {
    let args = strs(&["--config", "x", "--manifest-path", "m"]);
    let flags = cargo_extra_flags(&args);
    assert_eq!(
        flags,
        strs(&["-Zunstable-options", "--config", "x", "--manifest-path", "m"])
    );
}

#[test]
fn cargo_extra_flags_without_values() {
    let args = strs(&[]);
    assert_eq!(cargo_extra_flags(&args), strs(&["-Zunstable-options"]));
}

#[test]
fn subcommand_classification() {
    let setup = "setup".to_string();
    let t = "t".to_string();
    let nextest = "nextest".to_string();
    let run = "run".to_string();
    let bogus = "frobnicate".to_string();

    assert_eq!(subcommand_words(&setup, None), Ok(None));
    assert_eq!(subcommand_words(&t, None), Ok(Some(strs(&["t"]))));
    assert_eq!(
        subcommand_words(&nextest, Some(&run)),
        Ok(Some(strs(&["nextest", "run"])))
    );
    assert_eq!(
        subcommand_words(&nextest, None),
        Err(CarefulError::BadSubcommand)
    );
    assert_eq!(
        subcommand_words(&bogus, None),
        Err(CarefulError::BadSubcommand)
    );
}

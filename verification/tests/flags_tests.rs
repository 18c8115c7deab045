use cargo_careful::rustflags::{
    careful_flags, delegated_flags, encode_flags, flags_encodable, get_rustflags, sanitizer_flag,
    sysroot_build_flags,
};
use cargo_careful::CarefulError;

fn strs(v: &[&str]) -> Vec<String> {
    v.iter().map(|s| s.to_string()).collect()
}

#[test]
fn baseline_flags_exact() {
    assert_eq!(
        careful_flags(),
        strs(&[
            "-Cdebug-assertions=on",
            "-Zextra-const-ub-checks",
            "-Zstrict-init-checks",
            "--cfg",
            "careful",
        ])
    );
}

#[test]
fn encoded_variable_has_highest_precedence() {
    let encoded = "a\x1fb".to_string();
    let legacy = "ignored".to_string();
    let flags = get_rustflags(Some(&encoded), Some(&legacy), None);
    assert_eq!(flags, Ok(strs(&["a", "b"])));
}

#[test]
fn empty_encoded_variable_means_no_flags() {
    let encoded = String::new();
    let flags = get_rustflags(Some(&encoded), None, None);
    assert_eq!(flags, Ok(vec![]));
}

#[test]
fn legacy_variable_is_tokenized() {
    let legacy = "  -Copt-level=1   --cfg  foo ".to_string();
    let flags = get_rustflags(None, Some(&legacy), None);
    assert_eq!(flags, Ok(strs(&["-Copt-level=1", "--cfg", "foo"])));
}

#[test]
fn configuration_query_is_parsed() {
    let json = "[\"-Copt-level=1\",\"--cfg\"]".to_string();
    let flags = get_rustflags(None, None, Some(&json));
    assert_eq!(flags, Ok(strs(&["-Copt-level=1", "--cfg"])));
}

#[test]
fn unreadable_configuration_query_is_an_error() {
    let json = "not json".to_string();
    assert_eq!(
        get_rustflags(None, None, Some(&json)),
        Err(CarefulError::ConfigQueryFailed)
    );
    let json = "{\"build\":1}".to_string();
    assert_eq!(
        get_rustflags(None, None, Some(&json)),
        Err(CarefulError::ConfigQueryFailed)
    );
}

#[test]
fn no_source_means_no_flags() {
    assert_eq!(get_rustflags(None, None, None), Ok(vec![]));
}

#[test]
fn flag_encoding() {
    assert_eq!(encode_flags(&strs(&["a", "b", "c"])), "a\x1fb\x1fc");
    assert_eq!(encode_flags(&strs(&[])), "");
    assert_eq!(encode_flags(&strs(&["solo"])), "solo");
    assert!(flags_encodable(&strs(&["a", "b"])));
    assert!(!flags_encodable(&strs(&["a\x1fb"])));
}

#[test]
fn sanitizer_flag_rendering() {
    assert_eq!(sanitizer_flag("address"), "-Zsanitizer=address");
}

#[test]
fn delegated_flags_order() {
    let user = strs(&["-Copt-level=1"]);
    let address = "address".to_string();
    let flags = delegated_flags(&user, "/cache/address", Some(&address));
    assert_eq!(
        flags,
        strs(&[
            "-Cdebug-assertions=on",
            "-Zextra-const-ub-checks",
            "-Zstrict-init-checks",
            "--cfg",
            "careful",
            "-Copt-level=1",
            "--sysroot",
            "/cache/address",
            "-Zsanitizer=address",
        ])
    );
}

#[test]
fn sysroot_build_flags_order() {
    let user = strs(&["-Copt-level=1"]);
    let flags = sysroot_build_flags(&user, None);
    assert_eq!(
        flags,
        strs(&[
            "-Cdebug-assertions=on",
            "-Zextra-const-ub-checks",
            "-Zstrict-init-checks",
            "--cfg",
            "careful",
            "-Copt-level=1",
        ])
    );
}

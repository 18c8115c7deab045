use cargo_careful::sanitizer::{check_sanitizer, sanitizer_supported};
use cargo_careful::CarefulError;

#[test]
fn supported_sanitizer_is_found() {
    let spec = "{\"arch\":\"x86_64\",\"supported-sanitizers\":[\"address\",\"leak\"]}";
    assert_eq!(sanitizer_supported("address", spec), Ok(true));
    assert_eq!(sanitizer_supported("leak", spec), Ok(true));
    assert_eq!(sanitizer_supported("thread", spec), Ok(false));
}

#[test]
fn missing_key_means_unsupported() {
    let spec = "{\"arch\":\"x86_64\"}";
    assert_eq!(sanitizer_supported("address", spec), Ok(false));
}

#[test]
fn non_string_entries_are_skipped() {
    let spec = "{\"supported-sanitizers\":[7,\"address\"]}";
    assert_eq!(sanitizer_supported("address", spec), Ok(true));
    assert_eq!(sanitizer_supported("7", spec), Ok(false));
}

#[test]
fn malformed_target_spec_is_an_error() {
    assert_eq!(
        sanitizer_supported("address", "not json"),
        Err(CarefulError::ConfigQueryFailed)
    );
    assert_eq!(
        sanitizer_supported("address", "3"),
        Err(CarefulError::ConfigQueryFailed)
    );
    assert_eq!(
        sanitizer_supported("address", "{\"supported-sanitizers\":\"address\"}"),
        Err(CarefulError::ConfigQueryFailed)
    );
}

#[test]
fn unsupported_variant_is_rejected() {
    let spec = "{\"supported-sanitizers\":[\"leak\"]}";
    assert_eq!(
        check_sanitizer("address", spec),
        Err(CarefulError::VariantUnsupported)
    );
    assert_eq!(check_sanitizer("leak", spec), Ok(()));
    assert_eq!(
        check_sanitizer("leak", "nonsense"),
        Err(CarefulError::ConfigQueryFailed)
    );
}

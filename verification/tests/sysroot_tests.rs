use cargo_careful::hash::compute_cache_key;
use cargo_careful::numenc::{encode_u64, parse_u64};
use cargo_careful::sysroot::{
    conclude_build, is_fresh, main_thread_checker_candidate, marker_contents,
    needs_sanitizer_runtime, sysroot_dir_for, target_is_darwin, target_no_std, Sysroot,
};
use cargo_careful::CarefulError;

#[test]
fn target_dir_layout() {
    let sysroot = Sysroot::new("/cache", "x86_64-unknown-linux-gnu");
    assert_eq!(sysroot.target_dir(), "/cache/lib/rustlib/x86_64-unknown-linux-gnu");
    assert_eq!(
        sysroot.hash_file(),
        "/cache/lib/rustlib/x86_64-unknown-linux-gnu/.cargo-careful-hash"
    );
}

#[test]
fn variant_directories_are_distinct() {
    let baseline = sysroot_dir_for("/cache", None);
    let address = "address".to_string();
    let thread = "thread".to_string();
    let asan_dir = sysroot_dir_for("/cache", Some(&address));
    let tsan_dir = sysroot_dir_for("/cache", Some(&thread));
    assert_eq!(baseline, "/cache");
    assert_eq!(asan_dir, "/cache/address");
    assert_ne!(baseline, asan_dir);
    assert_ne!(asan_dir, tsan_dir);
}

#[test]
fn setup_cold_cache_records_matching_key() {
    let commit = "8c3a28b1".to_string();
    let key = compute_cache_key("/rust/library", Some(&commit), None);
    assert!(!is_fresh(None, key));
    let marker = marker_contents(key);
    assert_eq!(parse_u64(&marker), Some(key));
    assert!(is_fresh(Some(&marker), key));
    let recomputed = compute_cache_key("/rust/library", Some(&commit), None);
    assert_eq!(key, recomputed);
}

#[test]
fn cache_key_distinguishes_inputs() {
    let commit = "8c3a28b1".to_string();
    let address = "address".to_string();
    let base = compute_cache_key("/rust/library", Some(&commit), None);
    let with_variant = compute_cache_key("/rust/library", Some(&commit), Some(&address));
    let no_commit = compute_cache_key("/rust/library", None, None);
    assert_ne!(base, with_variant);
    assert_ne!(base, no_commit);
}

#[test]
fn build_step_is_idempotent() {
    let key = compute_cache_key("/rust/library", None, None);
    assert!(!is_fresh(None, key));
    let marker = match conclude_build(key, true) {
        Ok(m) => m,
        Err(_) => panic!("a successful compilation must conclude cleanly"),
    };
    assert!(is_fresh(Some(&marker), key));
}

#[test]
fn failed_build_leaves_cache_stale() {
    let key = compute_cache_key("/rust/library", None, None);
    assert_eq!(conclude_build(key, false), Err(CarefulError::BuildFailed));
    assert!(!is_fresh(None, key));
}

#[test]
fn changed_key_invalidates_marker() {
    let commit_a = "aaaa".to_string();
    let commit_b = "bbbb".to_string();
    let key_a = compute_cache_key("/rust/library", Some(&commit_a), None);
    let key_b = compute_cache_key("/rust/library", Some(&commit_b), None);
    let marker = marker_contents(key_a);
    assert!(is_fresh(Some(&marker), key_a));
    assert!(!is_fresh(Some(&marker), key_b));
}

#[test]
fn unreadable_marker_is_stale_not_an_error() {
    let garbled = "not a number".to_string();
    assert!(!is_fresh(Some(&garbled), 7));
    let empty = String::new();
    assert!(!is_fresh(Some(&empty), 7));
}

#[test]
fn decimal_encoding_round_trip() {
    assert_eq!(encode_u64(0), "0");
    assert_eq!(encode_u64(907), "907");
    assert_eq!(encode_u64(u64::MAX), "18446744073709551615");
    assert_eq!(parse_u64("0"), Some(0));
    assert_eq!(parse_u64("007"), Some(7));
    assert_eq!(parse_u64("18446744073709551615"), Some(u64::MAX));
    assert_eq!(parse_u64("18446744073709551616"), None);
    assert_eq!(parse_u64(""), None);
    assert_eq!(parse_u64("12a"), None);
    assert_eq!(parse_u64("-1"), None);
}

#[test]
fn no_std_targets() {
    assert!(target_no_std("x86_64-unknown-none"));
    assert!(target_no_std("nvptx64-nvidia-cuda"));
    assert!(target_no_std("x86_64-unknown-uefi"));
    assert!(!target_no_std("x86_64-unknown-linux-gnu"));
}

#[test]
fn darwin_detection_and_runtime_copy() {
    let address = "address".to_string();
    assert!(target_is_darwin("aarch64-apple-darwin"));
    assert!(!target_is_darwin("x86_64-unknown-linux-gnu"));
    assert!(needs_sanitizer_runtime("aarch64-apple-darwin", Some(&address)));
    assert!(!needs_sanitizer_runtime("aarch64-apple-darwin", None));
    assert!(!needs_sanitizer_runtime("x86_64-unknown-linux-gnu", Some(&address)));
}

#[test]
fn main_thread_checker_path_from_query() {
    let out = "/Applications/Xcode.app/Contents/Developer\n";
    assert_eq!(
        main_thread_checker_candidate(out),
        "/Applications/Xcode.app/Contents/Developer/usr/lib/libMainThreadChecker.dylib"
    );
}

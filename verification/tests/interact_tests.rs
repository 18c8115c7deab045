use cargo_careful::interact::{
    answer_outcome, classify_answer, locate_source_after_remedy, locate_source_first,
    LocateOutcome, PromptAnswer,
};
use cargo_careful::CarefulError;

#[test]
fn confirmation_replies() {
    assert_eq!(classify_answer(""), PromptAnswer::Proceed);
    assert_eq!(classify_answer("y"), PromptAnswer::Proceed);
    assert_eq!(classify_answer("yes"), PromptAnswer::Proceed);
    assert_eq!(classify_answer("n"), PromptAnswer::Decline);
    assert_eq!(classify_answer("no"), PromptAnswer::Decline);
    assert_eq!(classify_answer("maybe"), PromptAnswer::Invalid);
}

#[test]
fn declined_confirmation_aborts() {
    assert_eq!(answer_outcome(""), Ok(()));
    assert_eq!(answer_outcome("no"), Err(CarefulError::UserAborted));
    assert_eq!(answer_outcome("maybe"), Err(CarefulError::UserAborted));
}

#[test]
fn explicit_override_is_used_as_given() {
    let p = "/my/src".to_string();
    match locate_source_first(Some(&p), true, None, false) {
        LocateOutcome::Ready(path) => assert_eq!(path, "/my/src"),
        _ => panic!("a present override must be used"),
    }
    match locate_source_first(Some(&p), false, None, false) {
        LocateOutcome::Failed(e) => assert_eq!(e, CarefulError::SourceNotFound),
        _ => panic!("an override without its entry point must be rejected"),
    }
}

#[test]
fn toolchain_source_with_single_remediation() {
    let t = "/toolchain/src".to_string();
    match locate_source_first(None, false, Some(&t), true) {
        LocateOutcome::Ready(path) => assert_eq!(path, "/toolchain/src"),
        _ => panic!("a present toolchain source must be used"),
    }
    match locate_source_first(None, false, Some(&t), false) {
        LocateOutcome::NeedsRemediation(path) => assert_eq!(path, "/toolchain/src"),
        _ => panic!("an absent toolchain source gets one remediation attempt"),
    }
    assert_eq!(locate_source_after_remedy(&t, true), Ok("/toolchain/src".to_string()));
    assert_eq!(
        locate_source_after_remedy(&t, false),
        Err(CarefulError::SourceMissing)
    );
}

#[test]
fn no_toolchain_answer_means_sources_missing() {
    match locate_source_first(None, false, None, false) {
        LocateOutcome::Failed(e) => assert_eq!(e, CarefulError::SourceMissing),
        _ => panic!("without any source directory, resolution must fail"),
    }
}

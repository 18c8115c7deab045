//! The decisions behind the tool's two interactions with its surroundings:
//! the yes/no gate before a remediation command, and the resolution of the
//! library source tree with its single remediation attempt.

use vstd::prelude::*;
use vstd::string::*;

use crate::errors::CarefulError;
use crate::strutil::str_eq;

verus! {

/// What a confirmation reply means.
#[derive(Clone, Copy, Debug, PartialEq, Eq, Structural)]
pub enum PromptAnswer {
    /// An empty reply or an affirmative one.
    Proceed,
    /// A negative reply.
    Decline,
    /// Anything else.
    Invalid,
}

/// The meaning of a normalized confirmation reply.
pub open spec fn spec_classify_answer(ans: Seq<char>) -> PromptAnswer {
    if ans == ""@ || ans == "y"@ || ans == "yes"@ {
        PromptAnswer::Proceed
    } else if ans == "n"@ || ans == "no"@ {
        PromptAnswer::Decline
    } else {
        PromptAnswer::Invalid
    }
}

/// Classifies a confirmation reply; the reply is expected trimmed and in
/// lower case.
pub fn classify_answer(ans: &str) -> (r: PromptAnswer)
    ensures
        r == spec_classify_answer(ans@),
{
    if str_eq(ans, "") || str_eq(ans, "y") || str_eq(ans, "yes") {
        PromptAnswer::Proceed
    } else if str_eq(ans, "n") || str_eq(ans, "no") {
        PromptAnswer::Decline
    } else {
        PromptAnswer::Invalid
    }
}

/// Accepts an affirmative reply; any other reply aborts the invocation.
pub fn answer_outcome(ans: &str) -> (r: Result<(), CarefulError>)
    ensures
        r is Ok <==> spec_classify_answer(ans@) == PromptAnswer::Proceed,
        r is Err ==> r == Err::<(), CarefulError>(CarefulError::UserAborted),
{
    match classify_answer(ans) {
        PromptAnswer::Proceed => Ok(()),
        PromptAnswer::Decline => Err(CarefulError::UserAborted),
        PromptAnswer::Invalid => Err(CarefulError::UserAborted),
    }
}

/// The first step of resolving the library source tree.
pub enum LocateOutcome {
    /// The source tree to use, as it stands.
    Ready(String),
    /// The toolchain's source directory is absent; one remediation attempt
    /// may install it, after which `locate_source_after_remedy` decides.
    NeedsRemediation(String),
    /// Resolution failed.
    Failed(CarefulError),
}

/// What the first resolution step decides: an explicit override is used as
/// given when its expected entry point is present and rejected otherwise;
/// without an override, the toolchain's source directory is used when
/// present and remediated once when not; and with no toolchain answer at
/// all, the sources are missing.
pub open spec fn spec_locate_first(
    explicit: Option<Seq<char>>,
    entry_present: bool,
    toolchain_src: Option<Seq<char>>,
    present: bool,
) -> LocateStepView {
    match explicit {
        Some(p) => if entry_present {
            LocateStepView::Ready(p)
        } else {
            LocateStepView::Failed(CarefulError::SourceNotFound)
        },
        None => match toolchain_src {
            Some(t) => if present {
                LocateStepView::Ready(t)
            } else {
                LocateStepView::NeedsRemediation(t)
            },
            None => LocateStepView::Failed(CarefulError::SourceMissing),
        },
    }
}

/// The spec-level shape of `LocateOutcome`.
pub ghost enum LocateStepView {
    Ready(Seq<char>),
    NeedsRemediation(Seq<char>),
    Failed(CarefulError),
}

impl View for LocateOutcome {
    type V = LocateStepView;

    open spec fn view(&self) -> LocateStepView {
        match self {
            LocateOutcome::Ready(p) => LocateStepView::Ready(p@),
            LocateOutcome::NeedsRemediation(p) => LocateStepView::NeedsRemediation(p@),
            LocateOutcome::Failed(e) => LocateStepView::Failed(*e),
        }
    }
}

/// Resolves the library source tree, first step. `entry_present` says
/// whether an explicit override's expected entry point exists; `present`
/// says whether the toolchain's source directory exists.
pub fn locate_source_first(
    explicit: Option<&String>,
    entry_present: bool,
    toolchain_src: Option<&String>,
    present: bool,
) -> (r: LocateOutcome)
    ensures
        r@ == spec_locate_first(explicit.deep_view(), entry_present, toolchain_src.deep_view(), present),
{
    match explicit {
        Some(p) => {
            if entry_present {
                LocateOutcome::Ready(p.clone())
            } else {
                LocateOutcome::Failed(CarefulError::SourceNotFound)
            }
        },
        None => {
            match toolchain_src {
                Some(t) => {
                    if present {
                        LocateOutcome::Ready(t.clone())
                    } else {
                        LocateOutcome::NeedsRemediation(t.clone())
                    }
                },
                None => LocateOutcome::Failed(CarefulError::SourceMissing),
            }
        },
    }
}

/// Resolves the library source tree after the single remediation attempt:
/// the directory is used if it is present now, and the sources are missing
/// otherwise; there is no second attempt.
pub fn locate_source_after_remedy(toolchain_src: &String, present_now: bool) -> (r: Result<
    String,
    CarefulError,
>)
    ensures
        present_now ==> (r matches Ok(p) && p@ == toolchain_src@),
        !present_now ==> r == Err::<String, CarefulError>(CarefulError::SourceMissing),
{
    if present_now {
        Ok(toolchain_src.clone())
    } else {
        Err(CarefulError::SourceMissing)
    }
}

} // verus!

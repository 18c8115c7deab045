//! Interpretation of the toolchain's target-specification query: whether the
//! requested sanitizer is among the target's supported sanitizers.

use vstd::prelude::*;
use vstd::string::*;

use crate::errors::CarefulError;
use crate::strutil::str_eq;

verus! {

/// What looking up a key holding an array of strings in a JSON text can
/// yield, as plain values.
pub enum JsonStrings {
    /// The text is not valid JSON.
    Invalid,
    /// The text is JSON but not an object.
    NotObject,
    /// The object lacks the key.
    Missing,
    /// The key is present but its value is not an array.
    NotArray,
    /// The array's entries, each a string or not.
    Entries(Vec<Option<String>>),
}

/// The spec-level shape of `JsonStrings`.
pub ghost enum JsonStringsView {
    Invalid,
    NotObject,
    Missing,
    NotArray,
    Entries(Seq<Option<Seq<char>>>),
}

impl View for JsonStrings {
    type V = JsonStringsView;

    open spec fn view(&self) -> JsonStringsView {
        match self {
            JsonStrings::Invalid => JsonStringsView::Invalid,
            JsonStrings::NotObject => JsonStringsView::NotObject,
            JsonStrings::Missing => JsonStringsView::Missing,
            JsonStrings::NotArray => JsonStringsView::NotArray,
            JsonStrings::Entries(v) => JsonStringsView::Entries(v.deep_view()),
        }
    }
}

/// What looking up `key` in the JSON text yields; a function of the text and
/// the key alone.
pub uninterp spec fn json_string_array(text: Seq<char>, key: Seq<char>) -> JsonStringsView;

/// Relies on `serde_json::from_str::<serde_json::Value>`,
/// `serde_json::Value::as_object`, `serde_json::Map::get` and
/// `serde_json::Value::as_str`: parses the text, looks `key` up in the
/// top-level object, and hands the entries of its array value out as plain
/// values; the outcome depends on the text and the key alone.
#[verifier::external_body]
fn lookup_string_array(text: &str, key: &str) -> (r: JsonStrings)
    ensures
        r@ == json_string_array(text@, key@),
{
    let value = match serde_json::from_str::<serde_json::Value>(text) {
        Ok(v) => v,
        Err(_) => return JsonStrings::Invalid,
    };
    let object = match value.as_object() {
        Some(m) => m,
        None => return JsonStrings::NotObject,
    };
    match object.get(key) {
        None => JsonStrings::Missing,
        Some(serde_json::Value::Array(items)) => JsonStrings::Entries(
            items.iter().map(|v| v.as_str().map(str::to_owned)).collect(),
        ),
        Some(_) => JsonStrings::NotArray,
    }
}

/// The key under which a target specification lists its supported
/// sanitizers.
pub open spec fn supported_sanitizers_key() -> Seq<char> {
    "supported-sanitizers"@
}

/// What the support question answers for each lookup outcome: a missing key
/// means no sanitizer is supported; a present array answers by membership;
/// an unreadable text or a value of the wrong shape is a query failure.
pub open spec fn spec_sanitizer_decision(outcome: JsonStringsView, san: Seq<char>) -> Result<
    bool,
    CarefulError,
> {
    match outcome {
        JsonStringsView::Invalid => Err(CarefulError::ConfigQueryFailed),
        JsonStringsView::NotObject => Err(CarefulError::ConfigQueryFailed),
        JsonStringsView::Missing => Ok(false),
        JsonStringsView::NotArray => Err(CarefulError::ConfigQueryFailed),
        JsonStringsView::Entries(es) => Ok(
            exists|i: int| 0 <= i < es.len() && es[i] == Some(san),
        ),
    }
}

/// Decides the support question for one lookup outcome.
pub fn sanitizer_decision(outcome: JsonStrings, san: &str) -> (r: Result<bool, CarefulError>)
    ensures
        r == spec_sanitizer_decision(outcome@, san@),
{
    match outcome {
        JsonStrings::Invalid => Err(CarefulError::ConfigQueryFailed),
        JsonStrings::NotObject => Err(CarefulError::ConfigQueryFailed),
        JsonStrings::Missing => Ok(false),
        JsonStrings::NotArray => Err(CarefulError::ConfigQueryFailed),
        JsonStrings::Entries(es) => {
            assert(outcome@ == JsonStringsView::Entries(es.deep_view()));
            let ghost esv = es.deep_view();
            let mut found = false;
            let mut i: usize = 0;
            while i < es.len()
                invariant
                    i <= es.len(),
                    esv == es.deep_view(),
                    found ==> exists|j: int| 0 <= j < esv.len() && esv[j] == Some(san@),
                    !found ==> forall|j: int| 0 <= j < i ==> esv[j] != Some(san@),
                decreases es.len() - i,
            {
                if !found {
                    proof {
                        assert(esv[i as int] == es[i as int].deep_view());
                    }
                    match &es[i] {
                        Some(e) => {
                            if str_eq(e.as_str(), san) {
                                found = true;
                                assert(esv[i as int] == Some(san@));
                            }
                        },
                        None => {},
                    }
                }
                i += 1;
            }
            Ok(found)
        },
    }
}

/// Returns whether the given sanitizer is supported, read from the text the
/// toolchain's target-specification query printed.
pub fn sanitizer_supported(san: &str, target_spec_json: &str) -> (r: Result<bool, CarefulError>)
    ensures
        r == spec_sanitizer_decision(
            json_string_array(target_spec_json@, supported_sanitizers_key()),
            san@,
        ),
{
    let outcome = lookup_string_array(target_spec_json, "supported-sanitizers");
    sanitizer_decision(outcome, san)
}

/// Accepts the requested sanitizer or says why it cannot be used: the
/// variant is unsupported, or the support list could not be read.
pub fn check_sanitizer(san: &str, target_spec_json: &str) -> (r: Result<(), CarefulError>)
    ensures
        ({
            let d = spec_sanitizer_decision(
                json_string_array(target_spec_json@, supported_sanitizers_key()),
                san@,
            );
            match r {
                Ok(()) => d == Ok::<bool, CarefulError>(true),
                Err(e) => (d == Ok::<bool, CarefulError>(false) && e
                    == CarefulError::VariantUnsupported) || (d matches Err(de) && e == de),
            }
        }),
{
    match sanitizer_supported(san, target_spec_json) {
        Ok(true) => Ok(()),
        Ok(false) => Err(CarefulError::VariantUnsupported),
        Err(e) => Err(e),
    }
}

} // verus!

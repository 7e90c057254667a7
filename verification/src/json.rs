//! The boundary with `serde_json`: the two opaque types that travel through the
//! library, the names under which contracts speak of them, and the calls.

use vstd::prelude::*;

verus! {

/// `serde_json::Value`, a JSON document. The library never looks inside one.
#[verifier::external_type_specification]
#[verifier::external_body]
pub struct ExJsonValue(serde_json::Value);

/// `serde_json::Error`, the reason a text was not accepted as JSON.
#[verifier::external_type_specification]
#[verifier::external_body]
pub struct ExJsonError(serde_json::Error);

/// The compact JSON text of a document: what `serde_json::to_string` writes for it.
pub uninterp spec fn json_text(value: serde_json::Value) -> Seq<char>;

/// What `serde_json::from_str` makes of a text: the document it denotes, or the
/// reason it is not JSON.
pub uninterp spec fn json_parsed(text: Seq<char>) -> Result<serde_json::Value, serde_json::Error>;

/// The description that a `serde_json::Error` displays.
pub uninterp spec fn json_error_text(error: serde_json::Error) -> Seq<char>;

/// Calls `serde_json::to_string` on a document.
///
/// Trusted: the call succeeds and yields the document's compact text. It cannot
/// fail on a `Value`, whose object keys are strings and whose numbers are finite.
#[verifier::external_body]
pub(crate) fn to_text(value: &serde_json::Value) -> (text: Result<String, serde_json::Error>)
    ensures
        text is Ok,
        text->Ok_0@ == json_text(*value),
{
    serde_json::to_string(value)
}

/// Calls `serde_json::from_str` for a `Value`.
///
/// Trusted: the outcome depends on the text alone.
#[verifier::external_body]
pub(crate) fn parse(text: &str) -> (parsed: Result<serde_json::Value, serde_json::Error>)
    ensures
        parsed == json_parsed(text@),
{
    serde_json::from_str::<serde_json::Value>(text)
}

/// Calls `to_string` on a `serde_json::Error`, which goes through its `Display`.
///
/// Trusted: the text depends on the error alone.
#[verifier::external_body]
pub(crate) fn error_text(error: &serde_json::Error) -> (text: String)
    ensures
        text@ == json_error_text(*error),
{
    error.to_string()
}

} // verus!

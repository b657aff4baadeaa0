//! JSON values, and the two calls that turn them into text and back.

use serde_json::Value as JsonValue;
use vstd::prelude::*;

verus! {

/// `serde_json::Value`: any JSON value. Nothing here looks inside one.
#[verifier::external_type_specification]
#[verifier::external_body]
pub struct ExJsonValue(serde_json::Value);

/// `serde_json::Error`: why a text could not be read, or a value not written.
#[verifier::external_type_specification]
#[verifier::external_body]
pub struct ExJsonError(serde_json::Error);

/// The pretty-printed text of a JSON value.
pub uninterp spec fn pretty_text(value: JsonValue) -> Seq<char>;

/// The JSON value that a text stands for, for a text that is valid JSON.
pub uninterp spec fn parsed_json(text: Seq<char>) -> Option<JsonValue>;

/// Calls `serde_json::to_string_pretty`, which writes a value as JSON text
/// indented by two spaces. For a JSON value it does not fail: every key is
/// a string, a number that is not finite cannot be held, and the text is
/// written into memory. The text depends on the value alone: it is
/// `pretty_text` of the value.
#[verifier::external_body]
pub(crate) fn to_string_pretty(value: &JsonValue) -> (result: Result<String, serde_json::Error>)
    ensures
        result is Ok,
        result matches Ok(text) ==> text@ == pretty_text(*value),
{
    serde_json::to_string_pretty(value)
}

/// Calls `serde_json::from_str`, which reads a JSON value from a text. The
/// value depends on the text alone: it is `parsed_json` of the text, and the
/// call fails exactly when there is none.
#[verifier::external_body]
pub(crate) fn from_str(text: &str) -> (result: Result<JsonValue, serde_json::Error>)
    ensures
        result is Ok <==> parsed_json(text@) is Some,
        result matches Ok(value) ==> parsed_json(text@) == Some(value),
{
    serde_json::from_str(text)
}

} // verus!

//! The JSON-in-text-column codec: a structured value is stored as its compact
//! JSON text, and stored text is read back leniently, text that is not JSON
//! reading as an absent value.

use vstd::prelude::*;
use crate::value::{text_of, Param, SqlValue};

verus! {

/// Declares `serde_json::Value`, a structured JSON value. Nothing inside it is
/// read here: values are carried from requests to the writer and from the
/// reader to responses.
#[verifier::external_type_specification]
#[verifier::external_body]
pub struct ExJsonValue(serde_json::Value);

/// Declares `serde_json::Error`, the reader's reason for refusing a text. It is
/// dropped unread.
#[verifier::external_type_specification]
#[verifier::external_body]
pub struct ExJsonError(serde_json::Error);

/// The compact JSON text that `serde_json` writes for a value.
pub uninterp spec fn json_text(value: serde_json::Value) -> Seq<char>;

/// The value that `serde_json` reads from a text, if the text is JSON.
pub uninterp spec fn json_parse(text: Seq<char>) -> Option<serde_json::Value>;

/// Calls `serde_json::Value`'s `Display` through `to_string`. Trusted: the text
/// is the one named `json_text`, a function of the value alone. Writing a value
/// to a `String` cannot fail, so the call does not panic.
#[verifier::external_body]
fn write_json(value: &serde_json::Value) -> (text: String)
    ensures
        text@ == json_text(*value),
{
    value.to_string()
}

/// Calls `serde_json::from_str` at type `serde_json::Value`. Trusted: the
/// outcome is the one named `json_parse`, a function of the text alone; an
/// error stands for a text that is not JSON.
#[verifier::external_body]
fn read_json(text: &str) -> (r: Result<serde_json::Value, serde_json::Error>)
    ensures
        r matches Ok(value) ==> json_parse(text@) == Some(value),
        r is Err ==> json_parse(text@) is None,
{
    serde_json::from_str(text)
}

/// What is stored for a JSON-valued field: the value's text, or nothing when
/// the field is absent.
pub open spec fn encoded(value: Option<serde_json::Value>) -> Option<Seq<char>> {
    match value {
        Some(v) => Some(json_text(v)),
        None => None,
    }
}

/// What is read from a stored column: nothing when the column is NULL or holds
/// text that is not JSON, else the value the text stands for.
pub open spec fn decoded(text: Option<Seq<char>>) -> Option<serde_json::Value> {
    match text {
        Some(t) => json_parse(t),
        None => None,
    }
}

/// What a JSON-valued field binds: its text, or NULL when absent.
pub open spec fn opt_json(value: Option<serde_json::Value>) -> Param {
    match value {
        Some(v) => Param::Text(json_text(v)),
        None => Param::Null,
    }
}

/// Whether reading back the text written for `value` yields `value` again.
pub open spec fn survives(value: serde_json::Value) -> bool {
    json_parse(json_text(value)) == Some(value)
}

/// Encodes a JSON-valued field for storage.
pub fn encode(value: &Option<serde_json::Value>) -> (text: Option<String>)
    ensures
        text_of(text) == encoded(*value),
{
    match value {
        Some(v) => Some(write_json(v)),
        None => None,
    }
}

/// Decodes a stored column. Text that is not JSON is read as an absent value,
/// never as an error.
pub fn decode(text: &Option<String>) -> (value: Option<serde_json::Value>)
    ensures
        value == decoded(text_of(*text)),
{
    match text {
        Some(t) => match read_json(t.as_str()) {
            Ok(v) => Some(v),
            Err(_) => None,
        },
        None => None,
    }
}

/// Whether a stored column holds text that is not JSON, and so reads as an
/// absent value. Lets a caller of [`decode`] notice what was dropped.
pub fn is_malformed(text: &Option<String>) -> (r: bool)
    ensures
        r == (text_of(*text) matches Some(t) && json_parse(t) is None),
{
    match text {
        Some(t) => read_json(t.as_str()).is_err(),
        None => false,
    }
}

/// Binds a JSON-valued field: its text, or NULL when absent.
pub fn bind_json(value: &Option<serde_json::Value>) -> (r: SqlValue)
    ensures
        r@ == opt_json(*value),
{
    match value {
        Some(v) => SqlValue::Text(write_json(v)),
        None => SqlValue::Null,
    }
}

/// Round trip of the codec: an absent field stays absent, and a present value
/// is read back unchanged from its stored text whenever `serde_json` itself
/// reads back the text it wrote for that value.
pub proof fn round_trip(value: Option<serde_json::Value>)
    requires
        value matches Some(v) ==> survives(v),
    ensures
        decoded(encoded(value)) == value,
{
}

} // verus!

//! A JSON document as the settings logic reads it, and reading one from text.

use vstd::prelude::*;

verus! {

#[verifier::external_type_specification]
#[verifier::external_body]
pub struct ExSerdeValue(serde_json::Value);

#[verifier::external_type_specification]
#[verifier::external_body]
pub struct ExSerdeError(serde_json::Error);

/// A parsed JSON value. Objects keep their members in the order the parser
/// gives them.
pub enum JsonValue {
    Null,
    Bool(bool),
    /// A number, kept as the text `serde_json` writes for it.
    Number(String),
    String(String),
    Array(Vec<JsonValue>),
    Object(Vec<(String, JsonValue)>),
}

/// The value `serde_json::from_str::<serde_json::Value>` reads from a text,
/// if it accepts it, in the library's form.
pub uninterp spec fn json_document(text: Seq<char>) -> Option<JsonValue>;

/// Reads a JSON text with `serde_json::from_str::<serde_json::Value>`.
#[verifier::external_body]
pub(crate) fn parse_document(text: &str) -> (r: Result<JsonValue, serde_json::Error>)
    ensures
        match r {
            Ok(v) => json_document(text@) == Some(v),
            Err(_) => json_document(text@) is None,
        },
{
    match serde_json::from_str::<serde_json::Value>(text) {
        Ok(v) => Ok(from_serde(v)),
        Err(e) => Err(e),
    }
}

/// The library's form of a `serde_json::Value`, variant for variant;
/// numbers are kept as the text `serde_json::Number` displays.
#[verifier::external_body]
fn from_serde(v: serde_json::Value) -> JsonValue {
    match v {
        serde_json::Value::Null => JsonValue::Null,
        serde_json::Value::Bool(b) => JsonValue::Bool(b),
        serde_json::Value::Number(n) => JsonValue::Number(n.to_string()),
        serde_json::Value::String(s) => JsonValue::String(s),
        serde_json::Value::Array(items) => JsonValue::Array(items.into_iter().map(from_serde).collect()),
        serde_json::Value::Object(members) => JsonValue::Object(
            members.into_iter().map(|(k, v)| (k, from_serde(v))).collect(),
        ),
    }
}

} // verus!

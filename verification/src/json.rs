//! The JSON parser this library relies on. Nothing in this file is proved:
//! each item states what is taken on trust about `serde_json`.

use vstd::prelude::*;

use crate::error::JsonError;

verus! {

/// `serde_json::Value`, a parsed JSON document.
#[verifier::external_type_specification]
#[verifier::external_body]
pub struct ExJsonValue(serde_json::Value);

/// What `serde_json::from_slice` makes of `bytes` when asked for a
/// `serde_json::Value`: `None` where it reports an error, else the string
/// members of the document it returns.
pub uninterp spec fn json_document(bytes: Seq<u8>) -> Option<Map<Seq<char>, Seq<char>>>;

/// The string members of a parsed document: for a JSON object, each key
/// whose value is a JSON string, with that string; for any other value,
/// nothing.
pub uninterp spec fn json_text_members(value: serde_json::Value) -> Map<Seq<char>, Seq<char>>;

/// Calls `serde_json::from_slice::<serde_json::Value>`. Trusted: the outcome
/// depends on the bytes alone, and is the one that `json_document` names.
/// The parser's error is kept as its message.
#[verifier::external_body]
pub(crate) fn parse_value(bytes: &[u8]) -> (r: Result<serde_json::Value, JsonError>)
    ensures
        match r {
            Ok(value) => json_document(bytes@) == Some(json_text_members(value)),
            Err(_) => json_document(bytes@) is None,
        },
{
    serde_json::from_slice::<serde_json::Value>(bytes).map_err(
        |err| JsonError { message: err.to_string() },
    )
}

/// Calls `serde_json::Value::get` with a string key. Trusted: it finds a
/// member only in an object that holds the key, and the member is handed
/// out only where it is a JSON string.
#[verifier::external_body]
pub(crate) fn text_member(value: &serde_json::Value, key: &str) -> (r: Option<String>)
    ensures
        match r {
            Some(text) => json_text_members(*value).contains_key(key@) && json_text_members(
                *value,
            )[key@] == text@,
            None => !json_text_members(*value).contains_key(key@),
        },
{
    match value.get(key) {
        Some(serde_json::Value::String(text)) => Some(text.clone()),
        _ => None,
    }
}

} // verus!

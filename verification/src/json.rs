//! JSON documents as the rest of the library meets them: parsed by
//! `serde_json`, carried as opaque values, and asked only which top-level
//! fields they have.

use vstd::prelude::*;

verus! {

#[verifier::external_type_specification]
#[verifier::external_body]
pub struct ExJsonValue(serde_json::Value);

/// The names of the fields of a JSON object; empty for any other JSON value.
pub uninterp spec fn json_object_keys(v: serde_json::Value) -> Set<Seq<char>>;

/// The value that `serde_json::from_str::<Value>` reads a text as, or `None`
/// when the text is not JSON.
pub uninterp spec fn json_text_value(text: Seq<char>) -> Option<serde_json::Value>;

/// The value that `serde_json::from_slice::<Value>` reads a byte string as,
/// or `None` when the bytes are not JSON.
pub uninterp spec fn json_bytes_value(bytes: Seq<u8>) -> Option<serde_json::Value>;

/// The field names of the value a text reads as, when it is JSON.
pub open spec fn json_text_parse(text: Seq<char>) -> Option<Set<Seq<char>>> {
    match json_text_value(text) {
        Some(v) => Some(json_object_keys(v)),
        None => None,
    }
}

/// The field names of the value a byte string reads as, when it is JSON.
pub open spec fn json_bytes_parse(bytes: Seq<u8>) -> Option<Set<Seq<char>>> {
    match json_bytes_value(bytes) {
        Some(v) => Some(json_object_keys(v)),
        None => None,
    }
}

/// Reads a text as JSON (`serde_json::from_str::<Value>`, its error
/// dropped): the value is the one `json_text_value` names.
#[verifier::external_body]
pub(crate) fn parse_json_text(text: &str) -> (r: Option<serde_json::Value>)
    ensures
        r == json_text_value(text@),
{
    serde_json::from_str::<serde_json::Value>(text).ok()
}

/// Reads bytes as JSON (`serde_json::from_slice::<Value>`, its error
/// dropped): the value is the one `json_bytes_value` names.
#[verifier::external_body]
pub(crate) fn parse_json_bytes(bytes: &[u8]) -> (r: Option<serde_json::Value>)
    ensures
        r == json_bytes_value(bytes@),
{
    serde_json::from_slice::<serde_json::Value>(bytes).ok()
}

/// The JSON `null`: the value the text `null` reads as.
pub open spec fn json_null_value() -> serde_json::Value {
    json_text_value("null"@)->0
}

/// The JSON `null` (`serde_json::Value::Null`, which is what
/// `serde_json::from_str` reads `null` as), which has no fields.
#[verifier::external_body]
pub(crate) fn json_null() -> (r: serde_json::Value)
    ensures
        r == json_null_value(),
        json_object_keys(r) == Set::<Seq<char>>::empty(),
{
    serde_json::Value::Null
}

/// Whether a JSON value is an object with the field `key`
/// (`Value::get(key).is_some()`; `get` finds fields of objects only).
#[verifier::external_body]
pub(crate) fn json_has_field(v: &serde_json::Value, key: &str) -> (r: bool)
    ensures
        r == json_object_keys(*v).contains(key@),
{
    v.get(key).is_some()
}

} // verus!

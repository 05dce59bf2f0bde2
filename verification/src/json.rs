//! JSON values from `serde_json`, carried through the library as opaque data.

use vstd::prelude::*;

verus! {

/// `serde_json::Value`, known to the verifier only as an opaque type.
#[verifier::external_type_specification]
#[verifier::external_body]
pub struct ExJsonValue(serde_json::Value);

/// Calls `serde_json::Map::new` and wraps the result in `Value::Object`:
/// an empty JSON object. Nothing about the value is stated.
#[verifier::external_body]
pub fn empty_json_object() -> serde_json::Value {
    serde_json::Value::Object(serde_json::Map::new())
}

/// The name of the compact JSON text that `serde_json::to_string` writes
/// for a value.
pub uninterp spec fn json_text_of(value: serde_json::Value) -> Seq<char>;

/// Calls `serde_json::to_string`, with an empty text where it fails. The
/// writer is serde_json's and is not written out here; the text is named.
#[verifier::external_body]
pub fn json_to_string(value: &serde_json::Value) -> (r: String)
    ensures
        r@ == json_text_of(*value),
{
    serde_json::to_string(value).unwrap_or_default()
}

/// The name of whether `serde_json::from_str` parses a text into a `Value`.
pub uninterp spec fn json_parses(text: Seq<char>) -> bool;

/// Calls `serde_json::from_str::<Value>`: whether the text is JSON. The
/// grammar is serde_json's and is not written out here; the answer is named.
#[verifier::external_body]
pub fn parses_as_json(text: &str) -> (r: bool)
    ensures
        r == json_parses(text@),
{
    serde_json::from_str::<serde_json::Value>(text).is_ok()
}

/// The name of the string that `Value::get` with a key, then `as_str`, finds
/// in what `serde_json::from_str` parses a text into.
pub uninterp spec fn json_str_field(text: Seq<char>, key: Seq<char>) -> Option<Seq<char>>;

/// Calls `serde_json::from_str::<Value>`, then `get(key)`, and takes the
/// string that the field holds: `None` where the text is not JSON, is not an
/// object with that key, or the field is no string. The result is named.
#[verifier::external_body]
pub fn json_text_str_field(text: &str, key: &str) -> (r: Option<String>)
    ensures
        match r {
            Some(s) => json_str_field(text@, key@) == Some(s@),
            None => json_str_field(text@, key@).is_none(),
        },
{
    match serde_json::from_str::<serde_json::Value>(text) {
        Ok(v) => match v.get(key) {
            Some(serde_json::Value::String(s)) => Some(s.clone()),
            _ => None,
        },
        Err(_) => None,
    }
}

/// The name of whether what `serde_json::from_str` parses a text into has a
/// field under a key, as `Value::get` finds it.
pub uninterp spec fn json_has_field(text: Seq<char>, key: Seq<char>) -> bool;

/// Calls `serde_json::from_str::<Value>`, then `get(key)`, and clones the
/// field. Whether there is one is named; the value itself is opaque here.
#[verifier::external_body]
pub fn json_text_field(text: &str, key: &str) -> (r: Option<serde_json::Value>)
    ensures
        r.is_some() == json_has_field(text@, key@),
{
    match serde_json::from_str::<serde_json::Value>(text) {
        Ok(v) => v.get(key).cloned(),
        Err(_) => None,
    }
}

/// The shape of a JSON value as a schema reads it: its kind, and the keys of
/// an object.
#[derive(Debug, Clone)]
pub enum JsonShape {
    Null,
    Boolean,
    Number,
    Text,
    Array,
    Object { keys: Vec<String> },
}

/// The name of the shape of a JSON value: the variant of `serde_json::Value`
/// it is, and the keys of an object as `Map::keys` lists them.
pub uninterp spec fn json_shape_of(value: serde_json::Value) -> JsonShape;

/// Tells the variants of a `serde_json::Value` apart and lists the keys of
/// an object with `Map::keys`. The value is opaque here, so its shape is
/// named.
#[verifier::external_body]
pub fn json_shape(value: &serde_json::Value) -> (r: JsonShape)
    ensures
        r == json_shape_of(*value),
{
    match value {
        serde_json::Value::Null => JsonShape::Null,
        serde_json::Value::Bool(_) => JsonShape::Boolean,
        serde_json::Value::Number(_) => JsonShape::Number,
        serde_json::Value::String(_) => JsonShape::Text,
        serde_json::Value::Array(_) => JsonShape::Array,
        serde_json::Value::Object(m) => JsonShape::Object { keys: m.keys().cloned().collect() },
    }
}

} // verus!

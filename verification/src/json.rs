use serde_json::Value;
use vstd::prelude::*;

verus! {

/// Declares `serde_json::Value`, the JSON value that tool inputs, outputs
/// and errors are carried in. Its contents are opaque here.
#[verifier::external_type_specification]
#[verifier::external_body]
pub struct ExValue(Value);

/// Cloning a JSON value gives an equal value (the derived `Clone` of
/// `serde_json::Value`).
pub assume_specification[ <Value as Clone>::clone ](v: &Value) -> (r: Value)
    ensures
        r == *v,
;

/// What `serde_json::from_str::<Value>` gives for a text: the value when it parses.
pub uninterp spec fn json_parse(text: Seq<char>) -> Option<Value>;

/// The message of the error that `serde_json::from_str::<Value>` reports for a text.
pub uninterp spec fn json_parse_error(text: Seq<char>) -> Seq<char>;

/// What `Value::to_string` (its `Display`, compact JSON) gives for a value.
pub uninterp spec fn json_text(v: Value) -> Seq<char>;

/// The string that a JSON value holds, when it is a JSON string (`Value::as_str`).
pub uninterp spec fn json_as_str(v: Value) -> Option<Seq<char>>;

/// Calls `serde_json::from_str::<Value>`. Its outcome is named by
/// `json_parse` and, on failure, the error's message by `json_parse_error`.
#[verifier::external_body]
pub(crate) fn parse_json(text: &str) -> (r: Result<Value, String>)
    ensures
        match r {
            Ok(v) => json_parse(text@) == Some(v),
            Err(e) => json_parse(text@) is None && e@ == json_parse_error(text@),
        },
{
    match serde_json::from_str::<Value>(text) {
        Ok(v) => Ok(v),
        Err(e) => Err(e.to_string()),
    }
}

/// Builds `Value::Object(serde_json::Map::new())`, the empty JSON object,
/// which is the value that `serde_json::from_str` gives for the text `{}`.
#[verifier::external_body]
pub(crate) fn empty_json_object() -> (v: Value)
    ensures
        json_parse(seq!['{', '}']) == Some(v),
{
    Value::Object(serde_json::Map::new())
}

/// Builds `Value::Null`, the value that `serde_json::from_str` gives for
/// the text `null`.
#[verifier::external_body]
pub(crate) fn null_json() -> (v: Value)
    ensures
        json_parse(seq!['n', 'u', 'l', 'l']) == Some(v),
{
    Value::Null
}

/// The JSON object with one field, `key`, whose value is the string `text`.
pub uninterp spec fn text_field_object(key: Seq<char>, text: Seq<char>) -> Value;

/// Builds the JSON object `{ key: text }`: a `serde_json::Map` with the one
/// entry, as `Value::Object`. The value is named `text_field_object` of the
/// key and the text.
#[verifier::external_body]
pub(crate) fn json_text_field(key: &str, text: &str) -> (v: Value)
    ensures
        v == text_field_object(key@, text@),
{
    let mut m = serde_json::Map::new();
    m.insert(key.to_string(), Value::String(text.to_string()));
    Value::Object(m)
}

/// Calls `Value::to_string`; its result is named `json_text` of the value.
#[verifier::external_body]
pub(crate) fn json_to_string(v: &Value) -> (s: String)
    ensures
        s@ == json_text(*v),
{
    v.to_string()
}

/// Calls `Value::as_str` and copies the string out; the result is named
/// `json_as_str` of the value.
#[verifier::external_body]
pub(crate) fn json_str(v: &Value) -> (r: Option<String>)
    ensures
        match r {
            Some(s) => json_as_str(*v) == Some(s@),
            None => json_as_str(*v) is None,
        },
{
    match v.as_str() {
        Some(s) => Some(s.to_string()),
        None => None,
    }
}

/// The JSON string that holds a text (`Value::String`).
pub uninterp spec fn json_string_value(text: Seq<char>) -> Value;

/// Builds `Value::String` of the text; the value is named
/// `json_string_value` of the text.
#[verifier::external_body]
pub(crate) fn json_string(text: &str) -> (v: Value)
    ensures
        v == json_string_value(text@),
{
    Value::String(text.to_string())
}

/// The JSON number that holds an integer (`Value::from` of an `i64`).
pub uninterp spec fn json_i64_value(i: int) -> Value;

/// Builds `Value::from(i)`, the JSON number of the integer; the value is
/// named `json_i64_value` of the integer.
#[verifier::external_body]
pub(crate) fn json_i64(i: i64) -> (v: Value)
    ensures
        v == json_i64_value(i as int),
{
    Value::from(i)
}

/// The JSON object with the given fields, each a key and a value.
pub uninterp spec fn json_object_value(fields: Seq<(Seq<char>, Value)>) -> Value;

/// Builds `Value::Object` of a `serde_json::Map` collected from the fields;
/// the value is named `json_object_value` of the keys and values.
#[verifier::external_body]
pub(crate) fn json_object(fields: Vec<(String, Value)>) -> (v: Value)
    ensures
        v == json_object_value(fields@.map_values(|f: (String, Value)| (f.0@, f.1))),
{
    Value::Object(fields.into_iter().collect())
}

} // verus!

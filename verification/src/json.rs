//! JSON documents as plain values.
//!
//! Parsing itself is done by `serde_json`; what it produces is copied into
//! [`Json`], a tree of plain values that the rest of the crate can reason
//! about.

use vstd::prelude::*;

verus! {

/// A JSON number, as the three readings that `serde_json` offers of it.
#[derive(Clone, Copy, Debug, PartialEq, Eq)]
pub struct JsonNumber {
    /// The number as an integer between zero and `u64::MAX`, if it is one.
    pub unsigned: Option<u64>,
    /// The number as an integer between `i64::MIN` and `i64::MAX`, if it is one.
    pub signed: Option<i64>,
    /// The IEEE 754 binary64 bit pattern of the number read as a float.
    pub bits: Option<u64>,
}

/// A JSON document.
#[derive(Debug, PartialEq, Eq)]
pub enum Json {
    Null,
    Bool(bool),
    Number(JsonNumber),
    Text(String),
    Array(Vec<Json>),
    /// The members of an object, in the order in which `serde_json` walks
    /// them; no key occurs twice.
    Object(Vec<(String, Json)>),
}

#[verifier::external_type_specification]
#[verifier::external_body]
pub struct ExValue(serde_json::Value);

/// The document that a `serde_json::Value` holds.
pub uninterp spec fn value_content(value: serde_json::Value) -> Json;

/// The document that `serde_json` reads from `text`, or `None` where it
/// reads none.
pub uninterp spec fn parsed_document(text: Seq<char>) -> Option<Json>;

/// The document that `text` parses to, or `None` where `text` is not one
/// JSON document. No document begins with a backtick.
pub open spec fn parsed_json(text: Seq<char>) -> Option<Json> {
    if text.len() > 0 && text[0] == '`' {
        None
    } else {
        parsed_document(text)
    }
}

/// `serde_json::from_str::<Value>`: the text's parse, which is a function
/// of the text alone. A text that is not JSON gives `None`; one that begins
/// with a backtick is not JSON, since a document begins with white space or
/// with the first character of a value.
#[verifier::external_body]
fn read_value(text: &str) -> (r: Option<serde_json::Value>)
    ensures
        match r {
            Some(v) => parsed_document(text@) == Some(value_content(v)) && !(text@.len() > 0
                && text@[0] == '`'),
            None => parsed_json(text@) is None,
        },
{
    serde_json::from_str::<serde_json::Value>(text).ok()
}

/// Copies a `serde_json::Value` into a [`Json`], variant by variant, through
/// `Number::as_u64`, `Number::as_i64` and `Number::as_f64` for a number.
#[verifier::external_body]
fn json_from_value(value: &serde_json::Value) -> (r: Json)
    ensures
        r == value_content(*value),
{
    match value {
        serde_json::Value::Null => Json::Null,
        serde_json::Value::Bool(b) => Json::Bool(*b),
        serde_json::Value::Number(n) => {
            let bits = n.as_f64().map(|x| x.to_bits());
            Json::Number(JsonNumber { unsigned: n.as_u64(), signed: n.as_i64(), bits })
        },
        serde_json::Value::String(s) => Json::Text(s.clone()),
        serde_json::Value::Array(a) => Json::Array(a.iter().map(json_from_value).collect()),
        serde_json::Value::Object(m) => Json::Object(
            m.iter().map(|(k, v)| (k.clone(), json_from_value(v))).collect(),
        ),
    }
}

/// Parses `text` as one JSON document.
pub fn parse_json(text: &str) -> (r: Option<Json>)
    ensures
        r == parsed_json(text@),
{
    match read_value(text) {
        Some(v) => Some(json_from_value(&v)),
        None => None,
    }
}

} // verus!

//! A model of JSON values as the settings store keeps them, with floating-point numbers
//! carried by their JSON text.
use vstd::prelude::*;
use serde_json::Value;

verus! {

/// A JSON number, in the three forms that `serde_json::Number` distinguishes.
#[derive(Debug, PartialEq)]
pub enum JsonNumber {
    /// A non-negative integer.
    PosInt(u64),
    /// A negative integer.
    NegInt(i64),
    /// A finite floating-point number, by its JSON text.
    Float(String),
}

/// A JSON value.
#[derive(Debug)]
pub enum Json {
    Null,
    Bool(bool),
    Number(JsonNumber),
    Str(String),
    Array(Vec<Json>),
    Object(Vec<(String, Json)>),
}

/// The number that `serde_json::Number::from(i64)` builds.
pub open spec fn number_from_i64(n: i64) -> JsonNumber {
    if n < 0 {
        JsonNumber::NegInt(n)
    } else {
        JsonNumber::PosInt(n as u64)
    }
}

/// What reading a value as a `bool` gives (`serde_json::from_value::<bool>`).
pub open spec fn json_as_bool(v: Json) -> Option<bool> {
    match v {
        Json::Bool(b) => Some(b),
        _ => None,
    }
}

/// What reading a value as a `u64` gives: only non-negative integers convert.
pub open spec fn json_as_u64(v: Json) -> Option<u64> {
    match v {
        Json::Number(JsonNumber::PosInt(n)) => Some(n),
        _ => None,
    }
}

/// What reading a value as an `i32` gives: integers in range convert.
pub open spec fn json_as_i32(v: Json) -> Option<i32> {
    match v {
        Json::Number(JsonNumber::PosInt(n)) => if n <= i32::MAX {
            Some(n as i32)
        } else {
            None
        },
        Json::Number(JsonNumber::NegInt(n)) => if n >= i32::MIN {
            Some(n as i32)
        } else {
            None
        },
        _ => None,
    }
}

/// What reading a value as a `String` gives, by its characters.
pub open spec fn json_as_string(v: Json) -> Option<Seq<char>> {
    match v {
        Json::Str(s) => Some(s@),
        _ => None,
    }
}

/// The number `serde_json::Number::from(i64)` builds.
pub fn number_from_i64_exec(n: i64) -> (r: JsonNumber)
    ensures
        r == number_from_i64(n),
{
    if n < 0 {
        JsonNumber::NegInt(n)
    } else {
        JsonNumber::PosInt(n as u64)
    }
}

/// Reads a value as a `bool`.
pub fn as_bool(v: &Json) -> (r: Option<bool>)
    ensures
        r == json_as_bool(*v),
{
    match v {
        Json::Bool(b) => Some(*b),
        _ => None,
    }
}

/// Reads a value as a `u64`.
pub fn as_u64(v: &Json) -> (r: Option<u64>)
    ensures
        r == json_as_u64(*v),
{
    match v {
        Json::Number(JsonNumber::PosInt(n)) => Some(*n),
        _ => None,
    }
}

/// Reads a value as an `i32`.
pub fn as_i32(v: &Json) -> (r: Option<i32>)
    ensures
        r == json_as_i32(*v),
{
    match v {
        Json::Number(JsonNumber::PosInt(n)) => if *n <= i32::MAX as u64 {
            Some(*n as i32)
        } else {
            None
        },
        Json::Number(JsonNumber::NegInt(n)) => if *n >= i32::MIN as i64 {
            Some(*n as i32)
        } else {
            None
        },
        _ => None,
    }
}

/// Reads a value as a `String`.
pub fn as_string(v: &Json) -> (r: Option<String>)
    ensures
        r matches Some(s) ==> json_as_string(*v) == Some(s@),
        r is None ==> json_as_string(*v) is None,
{
    match v {
        Json::Str(s) => Some(s.clone()),
        _ => None,
    }
}

#[verifier::external_type_specification]
#[verifier::external_body]
pub struct ExJsonValue(serde_json::Value);

/// The value, in this model, that `serde_json::from_str::<serde_json::Value>` reads from
/// `text` when the text is JSON: object members in the order `serde_json`'s map keeps them,
/// integers by the `u64`/`i64` they fit, other numbers by `serde_json`'s text for them. The
/// result depends on the text alone.
pub uninterp spec fn json_value(text: Seq<char>) -> Option<Json>;

/// A `serde_json` value in this model, node for node.
#[verifier::external_body]
fn model_of(v: &Value) -> Json {
    match v {
        Value::Null => Json::Null,
        Value::Bool(b) => Json::Bool(*b),
        Value::Number(n) => Json::Number(match (n.as_u64(), n.as_i64()) {
            (Some(u), _) => JsonNumber::PosInt(u),
            (None, Some(i)) => JsonNumber::NegInt(i),
            _ => JsonNumber::Float(n.to_string()),
        }),
        Value::String(s) => Json::Str(s.clone()),
        Value::Array(items) => Json::Array(items.iter().map(model_of).collect()),
        Value::Object(m) => Json::Object(m.iter().map(|(k, x)| (k.clone(), model_of(x))).collect()),
    }
}

/// Reads a JSON text (`serde_json::from_str::<serde_json::Value>`) into this model; `None`
/// when the text is not JSON.
#[verifier::external_body]
pub(crate) fn parse_json(text: &str) -> (r: Option<Json>)
    ensures
        r == json_value(text@),
{
    serde_json::from_str::<serde_json::Value>(text).ok().map(|v| model_of(&v))
}

/// The `serde_json` value that a value of this model stands for, node for node (a
/// floating-point number read back from its JSON text).
#[verifier::external_body]
fn value_of(v: &Json) -> Value {
    match v {
        Json::Null => Value::Null,
        Json::Bool(b) => Value::Bool(*b),
        Json::Number(JsonNumber::PosInt(u)) => Value::from(*u),
        Json::Number(JsonNumber::NegInt(i)) => Value::from(*i),
        Json::Number(JsonNumber::Float(t)) => serde_json::from_str(t).unwrap_or(Value::Null),
        Json::Str(s) => Value::String(s.clone()),
        Json::Array(items) => Value::Array(items.iter().map(value_of).collect()),
        Json::Object(fields) => Value::Object(fields.iter().map(|(k, x)| (k.clone(), value_of(x))).collect()),
    }
}

/// The compact JSON text that `serde_json` writes for a value (`Display` of
/// `serde_json::Value`, as `to_string` gives it). The result depends on the value alone.
pub uninterp spec fn json_display(v: Json) -> Seq<char>;

/// Writes a value as compact JSON text (`serde_json::Value::to_string`).
#[verifier::external_body]
pub(crate) fn json_text(v: &Json) -> (r: String)
    ensures
        r@ == json_display(*v),
{
    value_of(v).to_string()
}

} // verus!

//! JSON text, read and written by `serde_json`.
//!
//! Nothing here is proved of `serde_json` itself. Its reader and its writer
//! each get a name, and the rest of the crate reasons about those names.

use vstd::prelude::*;
use crate::json::{Json, JsonValue, Member, Number};

verus! {

#[verifier::external_type_specification]
#[verifier::external_body]
pub struct ExValue(serde_json::Value);

#[verifier::external_type_specification]
#[verifier::external_body]
pub struct ExError(serde_json::Error);

/// The value that `serde_json::from_str` reads from `text`, or `None` where
/// it reports an error.
pub uninterp spec fn json_parse(text: Seq<char>) -> Option<JsonValue>;

/// The text that `serde_json::to_string` writes for `value`, or `None` where
/// it reports an error.
pub uninterp spec fn json_text(value: JsonValue) -> Option<Seq<char>>;

/// Copies the number out of a `serde_json::Value` that holds one: an integer
/// as `Value::as_i64` or `Value::as_u64` gives it, any other number as the
/// text that the value's `Display` gives. Nothing is claimed of the result.
#[verifier::external_body]
fn number_of(value: &serde_json::Value) -> (number: Number) {
    match (value.as_i64(), value.as_u64()) {
        (Some(i), _) => Number::Int(i),
        (_, Some(u)) => Number::Uint(u),
        _ => Number::Real(value.to_string()),
    }
}

/// Copies a `serde_json::Value` out, variant by variant; the members of an
/// object come in the order in which its map hands them out. Nothing is
/// claimed of the result.
#[verifier::external_body]
fn json_of(value: &serde_json::Value) -> (json: Json) {
    match value {
        serde_json::Value::Null => Json::Null,
        serde_json::Value::Bool(b) => Json::Bool(*b),
        serde_json::Value::Number(_) => Json::Number(number_of(value)),
        serde_json::Value::String(s) => Json::String(s.clone()),
        serde_json::Value::Array(items) => Json::Array(items.iter().map(json_of).collect()),
        serde_json::Value::Object(map) => {
            let mut members = Vec::new();
            for (key, value) in map {
                members.push(Member { key: key.clone(), value: json_of(value) });
            }
            Json::Object(members)
        },
    }
}

/// Builds the `serde_json::Value` of a number: an integer through
/// `Value::from`, any other through `serde_json::Number::from_f64` on what
/// `str::parse` reads from its text, and null where that is no finite number.
/// Nothing is claimed of the result.
#[verifier::external_body]
fn value_of_number(number: &Number) -> (value: serde_json::Value) {
    match number {
        Number::Int(i) => serde_json::Value::from(*i),
        Number::Uint(u) => serde_json::Value::from(*u),
        Number::Real(text) => text.parse().ok().and_then(serde_json::Number::from_f64).map_or(
            serde_json::Value::Null,
            serde_json::Value::Number,
        ),
    }
}

/// Builds the `serde_json::Value` of a [`Json`], variant by variant; members
/// are put into the map with `serde_json::Map::insert` in their order, so
/// that of two with one key the later stands. Nothing is claimed of the
/// result.
#[verifier::external_body]
fn value_of(json: &Json) -> (value: serde_json::Value) {
    match json {
        Json::Null => serde_json::Value::Null,
        Json::Bool(b) => serde_json::Value::Bool(*b),
        Json::Number(n) => value_of_number(n),
        Json::String(s) => serde_json::Value::String(s.clone()),
        Json::Array(items) => serde_json::Value::Array(items.iter().map(value_of).collect()),
        Json::Object(members) => {
            let mut map = serde_json::Map::new();
            for member in members {
                map.insert(member.key.clone(), value_of(&member.value));
            }
            serde_json::Value::Object(map)
        },
    }
}

/// Calls `serde_json::from_str` for a `serde_json::Value` and copies the value
/// out. The contract claims that the outcome depends on `text` alone, and
/// calls it [`json_parse`]; it does not say which texts are JSON.
#[verifier::external_body]
fn from_text(text: &str) -> (r: Result<Json, serde_json::Error>)
    ensures
        r matches Ok(json) ==> json_parse(text@) == Some(json@),
        r is Err ==> json_parse(text@) is None,
{
    match serde_json::from_str::<serde_json::Value>(text) {
        Ok(value) => Ok(json_of(&value)),
        Err(error) => Err(error),
    }
}

/// Calls `serde_json::to_string` on the `serde_json::Value` of `json`. The
/// contract claims that the outcome depends on what `json` denotes alone, and
/// calls it [`json_text`]; it does not say what the text is, nor that there
/// is one.
#[verifier::external_body]
fn to_text(json: &Json) -> (r: Result<String, serde_json::Error>)
    ensures
        r matches Ok(text) ==> json_text(json@) == Some(text@),
        r is Err ==> json_text(json@) is None,
{
    serde_json::to_string(&value_of(json))
}

/// The text is not JSON.
#[derive(Debug, Clone, Copy, PartialEq, Eq)]
pub struct Malformed;

/// The value could not be written as JSON text.
#[derive(Debug, Clone, Copy, PartialEq, Eq)]
pub struct Unwritable;

/// Reads one JSON value from `text`.
pub fn parse(text: &str) -> (r: Result<Json, Malformed>)
    ensures
        r matches Ok(json) ==> json_parse(text@) == Some(json@),
        r is Err ==> json_parse(text@) is None,
{
    match from_text(text) {
        Ok(json) => Ok(json),
        Err(_) => Err(Malformed),
    }
}

/// Writes `json` as compact JSON text.
pub fn render(json: &Json) -> (r: Result<String, Unwritable>)
    ensures
        r matches Ok(text) ==> json_text(json@) == Some(text@),
        r is Err ==> json_text(json@) is None,
{
    match to_text(json) {
        Ok(text) => Ok(text),
        Err(_) => Err(Unwritable),
    }
}

} // verus!

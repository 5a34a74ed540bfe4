//! JSON text, read and written by `serde_json`.
//!
//! The four functions marked `external_body` are the only code of this crate
//! that Verus does not check. Each makes one step between text, a
//! `serde_json::Value` and a [`Json`], and its contract gives that step a name.
//! Nothing is claimed of a name but that the step is a function of what goes
//! in: the same text is read as the same value, the same value is written as
//! the same text, in every process.
//!
//! `serde_json` is built with `preserve_order`. The members of an object are
//! then kept in an `IndexMap`, which is walked in the order of insertion
//! whatever its hasher: a text's members are read in the order of the text,
//! and a value's members are written in the order they stand in. Of two
//! members with one name `serde_json` keeps the later value, in the place of
//! the earlier.

use crate::json::JsonNumber::{Float, NegInt, PosInt};
use crate::json::{Json, JsonView};
use serde_json::{Error, Value};
use vstd::prelude::*;

verus! {

/// `serde_json::Value`, handed from one step to the next. Verus sees nothing
/// inside it.
#[verifier::external_type_specification]
#[verifier::external_body]
pub struct ExValue(serde_json::Value);

/// `serde_json::Error`, of which only its presence is used.
#[verifier::external_type_specification]
#[verifier::external_body]
pub struct ExError(serde_json::Error);

/// What a `serde_json::Value` holds, as a mathematical JSON value.
pub uninterp spec fn value_view(value: Value) -> JsonView;

/// What `serde_json::from_str` reads from a text as a `Value`; `None` where
/// it reports an error.
pub uninterp spec fn text_value(text: Seq<char>) -> Option<JsonView>;

/// What the `serde_json::Value` built from a JSON value holds; `None` where
/// none can be built.
pub uninterp spec fn json_value(json: JsonView) -> Option<JsonView>;

/// The text that `serde_json::to_string` writes for a `Value` that holds
/// `value`; `None` where it reports an error.
pub uninterp spec fn value_text(value: JsonView) -> Option<Seq<char>>;

/// `serde_json::from_str`, reading a `Value`. The contract only names the
/// outcome: `text_value` of the text.
#[verifier::external_body]
fn read_value(text: &str) -> (read: Result<Value, Error>)
    ensures
        match read {
            Ok(value) => text_value(text@) == Some(value_view(value)),
            Err(_) => text_value(text@) is None,
        },
{
    serde_json::from_str::<Value>(text)
}

/// Copies a `serde_json::Value` into a [`Json`], variant by variant. A number
/// is told apart by `Number::as_u64` and `Number::as_i64`; one that is neither
/// is held as the text `Number` displays. The contract says that the copy's
/// view is what the `Value` holds, which is how `value_view` gets its meaning.
#[verifier::external_body]
fn json_of_value(value: &Value) -> (json: Json)
    ensures
        json@ == value_view(*value),
{
    match value {
        Value::Null => Json::Null,
        Value::Bool(b) => Json::Bool(*b),
        Value::Number(n) => Json::Number(
            n.as_u64().map(PosInt).or(n.as_i64().map(NegInt)).unwrap_or_else(|| Float(n.to_string())),
        ),
        Value::String(s) => Json::String(s.clone()),
        Value::Array(a) => Json::Array(a.iter().map(json_of_value).collect()),
        Value::Object(m) => Json::Object(m.iter().map(|(k, v)| (k.clone(), json_of_value(v))).collect()),
    }
}

/// Builds a `serde_json::Value` from a [`Json`], variant by variant: integers
/// through `Value::from`, any other number by parsing its text as a
/// `serde_json::Number`, an array and an object by collecting their parts into
/// a `Value`. The contract only names the outcome: `json_value` of the view.
#[verifier::external_body]
fn value_of_json(json: &Json) -> (built: Result<Value, Error>)
    ensures
        match built {
            Ok(value) => json_value(json@) == Some(value_view(value)),
            Err(_) => json_value(json@) is None,
        },
{
    Ok(match json {
        Json::Null => Value::Null,
        Json::Bool(b) => Value::Bool(*b),
        Json::Number(PosInt(u)) => Value::from(*u),
        Json::Number(NegInt(i)) => Value::from(*i),
        Json::Number(Float(t)) => Value::Number(t.parse()?),
        Json::String(s) => Value::String(s.clone()),
        Json::Array(a) => return a.iter().map(value_of_json).collect(),
        Json::Object(m) => return m.iter().map(|(k, v)| Ok((k, value_of_json(v)?))).collect(),
    })
}

/// `serde_json::to_string` on a `Value`. The contract only names the outcome:
/// `value_text` of what the `Value` holds.
#[verifier::external_body]
fn write_value(value: &Value) -> (written: Result<String, Error>)
    ensures
        match written {
            Ok(text) => value_text(value_view(*value)) == Some(text@),
            Err(_) => value_text(value_view(*value)) is None,
        },
{
    serde_json::to_string(value)
}

/// The JSON value that a text is read as.
pub open spec fn parsed(text: Seq<char>) -> Option<JsonView> {
    text_value(text)
}

/// The text that a JSON value is written as.
pub open spec fn printed(json: JsonView) -> Option<Seq<char>> {
    match json_value(json) {
        Some(value) => value_text(value),
        None => None,
    }
}

/// Reads a text as one JSON value.
pub fn parse(text: &str) -> (json: Option<Json>)
    ensures
        match json {
            Some(json) => parsed(text@) == Some(json@),
            None => parsed(text@) is None,
        },
{
    match read_value(text) {
        Ok(value) => Some(json_of_value(&value)),
        Err(_) => None,
    }
}

/// Writes a JSON value as text.
pub fn print(json: &Json) -> (text: Option<String>)
    ensures
        match text {
            Some(text) => printed(json@) == Some(text@),
            None => printed(json@) is None,
        },
{
    match value_of_json(json) {
        Ok(value) => match write_value(&value) {
            Ok(text) => Some(text),
            Err(_) => None,
        },
        Err(_) => None,
    }
}

} // verus!

//! Lines on the wire: JSON text in, JSON text out.
//!
//! Reading and writing JSON text is the work of `serde_json`. What it reads
//! and writes is given a name here, and the rest of the crate is proved for
//! whatever those names stand for.

use vstd::prelude::*;
use crate::json::{Json, JsonValue};
use crate::text::chars_of;

verus! {

/// `serde_json::Value`: a value of it is handed on, never looked into.
#[verifier::external_type_specification]
#[verifier::external_body]
pub struct ExValue(serde_json::Value);

/// The value that `serde_json::from_str` reads from `text` as a
/// `serde_json::Value`, with each number as the text that its `Display`
/// writes and the members of each object in the order of its map; `None`
/// where `from_str` reports an error.
pub uninterp spec fn parsed(text: Seq<char>) -> Option<JsonValue>;

/// The text that `serde_json::to_string` writes for `value`, or `None` where
/// the value holds a number that `serde_json` does not read as one, or where
/// `to_string` reports an error.
pub uninterp spec fn rendered(value: JsonValue) -> Option<Seq<char>>;

/// Carries a `serde_json::Value` over into a [`Json`], variant by variant. A
/// number is written out with its `Display`; the members of an object come in
/// the order in which its map hands them out. Nothing is claimed of the result
/// here: what is claimed is claimed of `parse` as a whole.
#[verifier::external_body]
fn lift(value: &serde_json::Value) -> Json {
    match value {
        serde_json::Value::Null => Json::Null,
        serde_json::Value::Bool(b) => Json::Bool(*b),
        serde_json::Value::Number(n) => Json::Number(n.to_string()),
        serde_json::Value::String(s) => Json::Text(s.clone()),
        serde_json::Value::Array(items) => Json::Array(items.iter().map(lift).collect()),
        serde_json::Value::Object(map) => Json::Object(
            map.iter().map(|(k, v)| (k.clone(), lift(v))).collect(),
        ),
    }
}

/// Carries a [`Json`] over into a `serde_json::Value`, variant by variant. A
/// number is read from its text with `serde_json::from_str`; there is no value
/// where that fails. The members of an object are collected into a map, where
/// a later member replaces an earlier one of the same key. Nothing is claimed
/// of the result here: what is claimed is claimed of `render` as a whole.
#[verifier::external_body]
fn lower(json: &Json) -> Option<serde_json::Value> {
    Some(
        match json {
            Json::Null => serde_json::Value::Null,
            Json::Bool(b) => serde_json::Value::Bool(*b),
            Json::Number(text) => serde_json::Value::Number(serde_json::from_str(text).ok()?),
            Json::Text(text) => serde_json::Value::String(text.clone()),
            Json::Array(items) => serde_json::Value::Array(
                items.iter().map(lower).collect::<Option<_>>()?,
            ),
            Json::Object(members) => serde_json::Value::Object(
                members.iter().map(|(k, v)| Some((k.clone(), lower(v)?))).collect::<Option<_>>()?,
            ),
        },
    )
}

/// Calls `serde_json::from_str` for a `serde_json::Value`. The result is
/// `parsed` of the text: it depends on the text alone, and is `None` exactly
/// where the call reports an error.
#[verifier::external_body]
fn parse(text: &str) -> (value: Option<Json>)
    ensures
        match value {
            Some(json) => parsed(text@) == Some(json@),
            None => parsed(text@) is None,
        },
{
    match serde_json::from_str::<serde_json::Value>(text) {
        Ok(value) => Some(lift(&value)),
        Err(_) => None,
    }
}

/// Calls `serde_json::to_string` on the value. The result is `rendered` of
/// the value: it depends on the value alone.
#[verifier::external_body]
fn render(json: &Json) -> (text: Option<String>)
    ensures
        chars_of(text) == rendered(json@),
{
    match lower(json) {
        Some(value) => serde_json::to_string(&value).ok(),
        None => None,
    }
}

/// Reads one line as JSON.
pub fn read_line(line: &str) -> (value: Option<Json>)
    ensures
        match value {
            Some(json) => parsed(line@) == Some(json@),
            None => parsed(line@) is None,
        },
{
    parse(line)
}

/// Writes a value as one line of JSON, without the line break.
pub fn write_line(json: &Json) -> (line: Option<String>)
    ensures
        chars_of(line) == rendered(json@),
{
    render(json)
}

} // verus!

//! JSON text, read and written by `serde_json`.
//!
//! The grammar of JSON text is not restated here. What a text parses to and
//! what a document is written as are named, and the items below say that
//! `serde_json` computes them; nothing of this is proved.

use vstd::prelude::*;
use crate::json::{Json, JsonValue};

verus! {

/// `serde_json::Value`, carried between the conversions below and never read
/// by verified code.
#[verifier::external_type_specification]
#[verifier::external_body]
pub struct ExValue(serde_json::Value);

/// `serde_json::Number`, likewise.
#[verifier::external_type_specification]
#[verifier::external_body]
pub struct ExNumber(serde_json::Number);

/// The document that `serde_json::from_str` reads from `text` as a
/// `serde_json::Value`, or `None` where it rejects the text.
pub uninterp spec fn parsed_text(text: Seq<char>) -> Option<JsonValue>;

/// The text that `serde_json::to_string` writes for a document.
pub uninterp spec fn compact_text(doc: JsonValue) -> Seq<char>;

/// The text that `serde_json::to_string_pretty` writes for a document.
pub uninterp spec fn pretty_text(doc: JsonValue) -> Seq<char>;

/// Tells the three kinds of `serde_json::Number` apart through its `as_i64`
/// and `as_u64`, and moves the number over; one that is neither is kept as
/// the text that its `to_string` gives. Nothing is claimed of the result.
#[verifier::external_body]
fn number_from_outside(n: &serde_json::Number) -> Json {
    match (n.as_i64(), n.as_u64()) {
        (Some(i), _) => Json::Int(i),
        (None, Some(u)) => Json::UInt(u),
        (None, None) => Json::Float(n.to_string()),
    }
}

/// Moves a `serde_json::Value` over, variant by variant. Nothing is claimed
/// of the result.
#[verifier::external_body]
fn json_from_outside(v: &serde_json::Value) -> Json {
    match v {
        serde_json::Value::Null => Json::Null,
        serde_json::Value::Bool(b) => Json::Bool(*b),
        serde_json::Value::Number(n) => number_from_outside(n),
        serde_json::Value::String(s) => Json::Str(s.clone()),
        serde_json::Value::Array(a) => Json::Array(a.iter().map(json_from_outside).collect()),
        serde_json::Value::Object(m) => {
            Json::Object(m.iter().map(|(k, v)| (k.clone(), json_from_outside(v))).collect())
        },
    }
}

/// Reads the text of a `Float` back with `serde_json::from_str` at the type
/// `serde_json::Number`; `Value::Null` where that fails. Nothing is claimed
/// of the result.
#[verifier::external_body]
fn float_to_outside(text: &str) -> serde_json::Value {
    serde_json::from_str::<serde_json::Number>(text).map_or(
        serde_json::Value::Null,
        serde_json::Value::Number,
    )
}

/// Builds the `serde_json::Value` of a document, variant by variant: integers
/// through `Value::from`, an object by collecting the members in order into a
/// `serde_json::Map`. Nothing is claimed of the result.
#[verifier::external_body]
fn json_to_outside(j: &Json) -> serde_json::Value {
    match j {
        Json::Null => serde_json::Value::Null,
        Json::Bool(b) => serde_json::Value::Bool(*b),
        Json::Int(i) => serde_json::Value::from(*i),
        Json::UInt(u) => serde_json::Value::from(*u),
        Json::Float(text) => float_to_outside(text),
        Json::Str(s) => serde_json::Value::String(s.clone()),
        Json::Array(a) => serde_json::Value::Array(a.iter().map(json_to_outside).collect()),
        Json::Object(m) => serde_json::Value::Object(
            m.iter().map(|(k, v)| (k.clone(), json_to_outside(v))).collect(),
        ),
    }
}

/// `serde_json::from_str` at the type `serde_json::Value`: the result is the
/// document named by [`parsed_text`], and `None` exactly where the text is
/// rejected.
#[verifier::external_body]
fn read_text(text: &str) -> (r: Option<Json>)
    ensures
        match r {
            Some(doc) => parsed_text(text@) == Some(doc@),
            None => parsed_text(text@) is None,
        },
{
    match serde_json::from_str::<serde_json::Value>(text) {
        Ok(v) => Some(json_from_outside(&v)),
        Err(_) => None,
    }
}

/// `serde_json::to_string` on the document's `serde_json::Value`: the result
/// is the text named by [`compact_text`].
#[verifier::external_body]
fn write_text(doc: &Json) -> (r: String)
    ensures
        r@ == compact_text(doc@),
{
    serde_json::to_string(&json_to_outside(doc)).unwrap_or_default()
}

/// `serde_json::to_string_pretty` on the document's `serde_json::Value`: the
/// result is the text named by [`pretty_text`].
#[verifier::external_body]
fn write_text_pretty(doc: &Json) -> (r: String)
    ensures
        r@ == pretty_text(doc@),
{
    serde_json::to_string_pretty(&json_to_outside(doc)).unwrap_or_default()
}

impl Json {
    /// Reads a document from JSON text; `None` where the text is not JSON.
    pub fn parse(text: &str) -> (r: Option<Json>)
        ensures
            match r {
                Some(doc) => parsed_text(text@) == Some(doc@),
                None => parsed_text(text@) is None,
            },
    {
        read_text(text)
    }

    /// The document as compact JSON text.
    pub fn to_text(&self) -> (r: String)
        ensures
            r@ == compact_text(self@),
    {
        write_text(self)
    }

    /// The document as indented JSON text.
    pub fn to_text_pretty(&self) -> (r: String)
        ensures
            r@ == pretty_text(self@),
    {
        write_text_pretty(self)
    }
}

} // verus!

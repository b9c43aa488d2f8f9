//! Reading JSON documents: a mathematical model of a document, and the few
//! operations of `serde_json` through which the crate looks into one.

use vstd::prelude::*;

verus! {

/// A JSON document as a mathematical value. Numbers are not told apart:
/// nothing in this crate reads one.
pub enum Json {
    Null,
    Bool(bool),
    Number,
    Text(Seq<char>),
    Array(Seq<Json>),
    Object(Map<Seq<char>, Json>),
}

impl Json {
    /// The member of an object under `key`; nothing for a missing key and
    /// for a document that is no object.
    pub open spec fn member(self, key: Seq<char>) -> Option<Json> {
        match self {
            Json::Object(members) => if members.contains_key(key) {
                Some(members[key])
            } else {
                None
            },
            _ => None,
        }
    }

    /// The truth value, where the document is one.
    pub open spec fn as_bool(self) -> Option<bool> {
        match self {
            Json::Bool(b) => Some(b),
            _ => None,
        }
    }

    /// The characters, where the document is a string.
    pub open spec fn as_text(self) -> Option<Seq<char>> {
        match self {
            Json::Text(t) => Some(t),
            _ => None,
        }
    }
}

#[verifier::external_type_specification]
#[verifier::external_body]
pub struct ExValue(serde_json::Value);

/// The document that a `serde_json::Value` holds.
pub uninterp spec fn json_model(value: serde_json::Value) -> Json;

/// The document that `serde_json::from_str` reads from a text, if it reads
/// one.
pub uninterp spec fn json_of(text: Seq<char>) -> Option<Json>;

/// The model of an optional value.
pub open spec fn model_of(value: Option<&serde_json::Value>) -> Option<Json> {
    match value {
        Some(v) => Some(json_model(*v)),
        None => None,
    }
}

/// Parses a text with `serde_json::from_str`.
///
/// Trusted: a value comes back exactly when the text is one that
/// `serde_json` accepts as a document, and it holds the document that
/// `serde_json` reads from the text. Why a text was refused is dropped.
#[verifier::external_body]
pub(crate) fn parse(text: &str) -> (r: Option<serde_json::Value>)
    ensures
        r is Some <==> json_of(text@) is Some,
        r is Some ==> json_of(text@) == Some(json_model(r->0)),
{
    match serde_json::from_str::<serde_json::Value>(text) {
        Ok(value) => Some(value),
        Err(_) => None,
    }
}

/// Looks up a member with `serde_json::Value::get`, indexed by a string.
///
/// Trusted: as in `serde_json`, an object gives the member stored under
/// the key, if there is one, and every other value gives nothing.
#[verifier::external_body]
pub(crate) fn member<'a>(value: &'a serde_json::Value, key: &str) -> (r: Option<
    &'a serde_json::Value,
>)
    ensures
        model_of(r) == json_model(*value).member(key@),
{
    value.get(key)
}

/// Reads a truth value with `serde_json::Value::as_bool`.
///
/// Trusted: as in `serde_json`, a boolean gives its value and every other
/// value gives nothing.
#[verifier::external_body]
pub(crate) fn as_bool(value: &serde_json::Value) -> (r: Option<bool>)
    ensures
        r == json_model(*value).as_bool(),
{
    value.as_bool()
}

/// Reads a string with `serde_json::Value::as_str`.
///
/// Trusted: as in `serde_json`, a string gives its characters and every
/// other value gives nothing.
#[verifier::external_body]
pub(crate) fn as_text<'a>(value: &'a serde_json::Value) -> (r: Option<&'a str>)
    ensures
        r is Some <==> json_model(*value).as_text() is Some,
        r is Some ==> json_model(*value).as_text() == Some(r->0@),
{
    value.as_str()
}

} // verus!

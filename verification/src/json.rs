//! JSON documents, as `serde_json` parses and reads them.
//!
//! A document is carried as a `serde_json::Value`, which the verifier cannot
//! look into. `json_shape` stands for what a document holds at its top level,
//! `json_text` for how it is shown, `json_parse` for the document that a text
//! denotes. Each function below calls into `serde_json` and is believed, not
//! proved, to return what its contract says in these terms.

use vstd::prelude::*;
use serde_json::Value;

verus! {

/// `serde_json::Value`: a parsed JSON document, opaque to the verifier.
#[verifier::external_type_specification]
#[verifier::external_body]
pub struct ExValue(serde_json::Value);

/// `serde_json::Error`: why a text is no JSON document, opaque to the verifier.
#[verifier::external_type_specification]
#[verifier::external_body]
pub struct ExError(serde_json::Error);

/// What `serde_json::from_str` makes of a text: the document, or the reason
/// why the text is none.
pub uninterp spec fn json_parse(text: Seq<char>) -> Result<Value, serde_json::Error>;

/// The `Debug` rendering of a parse error.
pub uninterp spec fn json_error_text(e: serde_json::Error) -> Seq<char>;

/// The `Debug` rendering of a document.
pub uninterp spec fn json_text(v: Value) -> Seq<char>;

/// What a document is at its top level, as far as the protocol reads it.
pub enum JsonShape {
    /// Null.
    Null,
    /// A string, with its characters.
    Str(Seq<char>),
    /// A number; as an unsigned integer where it is one that fits 64 bits,
    /// `None` for every other number.
    Number(Option<u64>),
    /// An object, with the document under each of its keys.
    Object(Map<Seq<char>, Value>),
    /// A boolean or an array.
    Other,
}

/// The top level of a document.
pub uninterp spec fn json_shape(v: Value) -> JsonShape;

/// The member that a document holds under a key: `None` where the document is
/// no object or the object has no such key.
pub open spec fn json_member(v: Value, key: Seq<char>) -> Option<Value> {
    match json_shape(v) {
        JsonShape::Object(members) => if members.contains_key(key) {
            Some(members[key])
        } else {
            None
        },
        _ => None,
    }
}

/// The number of keys of an object: `None` where the document is no object.
pub open spec fn json_member_count(v: Value) -> Option<nat> {
    match json_shape(v) {
        JsonShape::Object(members) => Some(members.dom().len()),
        _ => None,
    }
}

/// The member under a key of an object that has this key and no other:
/// `None` for every other document.
pub open spec fn json_sole_member(v: Value, key: Seq<char>) -> Option<Value> {
    if json_member_count(v) == Some(1nat) {
        json_member(v, key)
    } else {
        None
    }
}

/// The document as an unsigned integer: `None` where it is no number, or a
/// number that is no unsigned integer of 64 bits.
pub open spec fn json_u64(v: Value) -> Option<u64> {
    match json_shape(v) {
        JsonShape::Number(n) => n,
        _ => None,
    }
}

/// The document as a string: `None` where it is anything else.
pub open spec fn json_str(v: Value) -> Option<Seq<char>> {
    match json_shape(v) {
        JsonShape::Str(s) => Some(s),
        _ => None,
    }
}

/// Calls `serde_json::from_str` for a `Value`. Believed: the outcome depends on
/// the text alone.
#[verifier::external_body]
pub(crate) fn parse(text: &str) -> (r: Result<Value, serde_json::Error>)
    ensures
        r == json_parse(text@),
{
    serde_json::from_str::<Value>(text)
}

/// Formats a `serde_json::Error` with `{:?}`. Believed: the text depends on the
/// error alone.
#[verifier::external_body]
pub(crate) fn error_text(e: &serde_json::Error) -> (r: String)
    ensures
        r@ == json_error_text(*e),
{
    format!("{:?}", e)
}

/// Formats a `Value` with `{:?}`. Believed: the text depends on the document
/// alone.
#[verifier::external_body]
pub(crate) fn text_of(v: &Value) -> (r: String)
    ensures
        r@ == json_text(*v),
{
    format!("{:?}", v)
}

/// Calls `Value::get` with a string key and clones what it finds. Believed:
/// an object gives the document under that key, if it has the key; an object
/// without the key, and every document that is no object, gives nothing.
#[verifier::external_body]
pub(crate) fn member(v: &Value, key: &str) -> (r: Option<Value>)
    ensures
        r == json_member(*v, key@),
{
    v.get(key).cloned()
}

/// Calls `Value::as_object` and, on the object, `Map::len`. Believed: an
/// object gives the number of its keys; every other document gives nothing.
#[verifier::external_body]
pub(crate) fn member_count(v: &Value) -> (r: Option<usize>)
    ensures
        r is Some == json_member_count(*v) is Some,
        r matches Some(n) ==> json_member_count(*v) == Some(n as nat),
{
    v.as_object().map(serde_json::Map::len)
}

/// Calls `Value::is_null`. Believed: it tells whether the document is null.
#[verifier::external_body]
pub(crate) fn is_null(v: &Value) -> (r: bool)
    ensures
        r == (json_shape(*v) is Null),
{
    v.is_null()
}

/// Calls `Value::as_u64`. Believed: a number that is an unsigned integer of
/// 64 bits gives that integer; every other document gives nothing.
#[verifier::external_body]
pub(crate) fn as_u64(v: &Value) -> (r: Option<u64>)
    ensures
        r == json_u64(*v),
{
    v.as_u64()
}

/// Calls `Value::as_str` and copies the string. Believed: a string gives its
/// characters; every other document gives nothing.
#[verifier::external_body]
pub(crate) fn as_string(v: &Value) -> (r: Option<String>)
    ensures
        r is Some == json_str(*v) is Some,
        r matches Some(s) ==> json_str(*v) == Some(s@),
{
    v.as_str().map(String::from)
}

/// Calls `Value::from` on a `u64`. Believed: the document is the number that
/// is this integer.
#[verifier::external_body]
pub(crate) fn from_u64(n: u64) -> (r: Value)
    ensures
        json_shape(r) == JsonShape::Number(Some(n)),
{
    Value::from(n)
}

} // verus!

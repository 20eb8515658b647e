//! What this library takes on trust from `serde_json`.
//!
//! A JSON document is held as a `serde_json::Value`, which the verifier sees
//! as an opaque value. What the crate's functions return for a document is
//! named here by functions without a body; each wrapper below makes one call
//! and is believed to return what the name stands for. Nothing in this file is
//! proved.

use vstd::prelude::*;
use serde_json::Value;

verus! {

#[verifier::external_type_specification]
#[verifier::external_body]
pub struct ExValue(Value);

#[verifier::external_type_specification]
#[verifier::external_body]
pub struct ExJsonError(serde_json::Error);

/// The document that `serde_json::from_str` reads from `text`; `None` where it
/// returns an error.
pub uninterp spec fn json_parsed(text: Seq<char>) -> Option<Value>;

/// What indexing `doc` by the string `key` gives: the member of that name
/// where `doc` is an object that has one, and the null document otherwise.
pub uninterp spec fn json_member(doc: Value, key: Seq<char>) -> Value;

/// The string that `doc` is, as `Value::as_str` returns it; `None` where `doc`
/// is no string.
pub uninterp spec fn json_text(doc: Value) -> Option<Seq<char>>;

/// The integer that `doc` is, as `Value::as_i64` returns it; `None` where
/// `doc` is no integer or does not fit in 64 bits with a sign.
pub uninterp spec fn json_integer(doc: Value) -> Option<i64>;

/// The elements of the array that `doc` is, as `Value::as_array` returns them;
/// `None` where `doc` is no array.
pub uninterp spec fn json_items(doc: Value) -> Option<Seq<Value>>;

/// The text that `serde_json::to_string` writes for `doc`; `None` where it
/// returns an error.
pub uninterp spec fn json_rendered(doc: Value) -> Option<Seq<char>>;

/// Calls `serde_json::from_str` for a `Value`. Believed: the call returns
/// `Ok` with the document that `json_parsed` names, or an error where
/// `json_parsed` is `None`.
#[verifier::external_body]
pub(crate) fn parse(text: &str) -> (parsed: Result<Value, serde_json::Error>)
    ensures
        parsed is Ok <==> json_parsed(text@) is Some,
        parsed matches Ok(doc) ==> json_parsed(text@) == Some(doc),
{
    serde_json::from_str::<Value>(text)
}

/// Indexes a `Value` by a string, through its `Index` impl, which does not
/// panic on a shared reference. Believed: the call returns the document that
/// `json_member` names.
#[verifier::external_body]
pub(crate) fn member<'a>(doc: &'a Value, key: &str) -> (found: &'a Value)
    ensures
        *found == json_member(*doc, key@),
{
    &doc[key]
}

/// Calls `Value::as_str`. Believed: the call returns the string that
/// `json_text` names, or `None` where `json_text` is `None`.
#[verifier::external_body]
pub(crate) fn text_of<'a>(doc: &'a Value) -> (found: Option<&'a str>)
    ensures
        found is Some <==> json_text(*doc) is Some,
        found matches Some(text) ==> json_text(*doc) == Some(text@),
{
    doc.as_str()
}

/// Calls `Value::as_i64`. Believed: the call returns what `json_integer`
/// names.
#[verifier::external_body]
pub(crate) fn integer_of(doc: &Value) -> (found: Option<i64>)
    ensures
        found == json_integer(*doc),
{
    doc.as_i64()
}

/// Calls `Value::as_array` and copies the elements out. Believed: the call
/// returns the elements that `json_items` names, in their order, or `None`
/// where `json_items` is `None`.
#[verifier::external_body]
pub(crate) fn items_of(doc: &Value) -> (found: Option<Vec<Value>>)
    ensures
        found is Some <==> json_items(*doc) is Some,
        found matches Some(items) ==> json_items(*doc) == Some(items@),
{
    doc.as_array().cloned()
}

/// Calls `serde_json::to_string` on a `Value`. Believed: the call returns
/// `Ok` with the text that `json_rendered` names, or an error where
/// `json_rendered` is `None`.
#[verifier::external_body]
pub(crate) fn render(doc: &Value) -> (line: Result<String, serde_json::Error>)
    ensures
        line is Ok <==> json_rendered(*doc) is Some,
        line matches Ok(text) ==> json_rendered(*doc) == Some(text@),
{
    serde_json::to_string(doc)
}

} // verus!

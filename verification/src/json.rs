//! JSON documents, as `serde_json` reads and writes them.
//!
//! A document is a `serde_json::Value`. Proofs cannot look inside one, so what
//! a document holds is described by the spec functions below, one for each
//! accessor of `Value` that the crate calls. The functions of this module that
//! are marked `external_body` are believed, not proved.

use vstd::prelude::*;

verus! {

/// `serde_json::Value`, a JSON document. Verified code carries it and hands it
/// to the functions below; it never looks inside.
#[verifier::external_type_specification]
#[verifier::external_body]
pub struct ExValue(serde_json::Value);

/// The document that `serde_json::from_str` reads from `text`, if `text` is
/// one JSON document.
pub uninterp spec fn json_document(text: Seq<char>) -> Option<serde_json::Value>;

/// The members of a JSON object by key; no key at all for a document that is
/// not an object.
pub uninterp spec fn json_members(doc: serde_json::Value) -> Map<Seq<char>, serde_json::Value>;

/// The characters of a JSON string; `None` for any other document.
pub uninterp spec fn json_text(doc: serde_json::Value) -> Option<Seq<char>>;

/// A JSON integer that fits `i64`; `None` for any other document.
pub uninterp spec fn json_signed(doc: serde_json::Value) -> Option<i64>;

/// A JSON integer that fits `u64`; `None` for any other document.
pub uninterp spec fn json_unsigned(doc: serde_json::Value) -> Option<u64>;

/// The elements of a JSON array in order; `None` for any other document.
pub uninterp spec fn json_items(doc: serde_json::Value) -> Option<Seq<serde_json::Value>>;

/// Whether the document is JSON `null`.
pub uninterp spec fn json_is_null(doc: serde_json::Value) -> bool;

/// The text that `serde_json::to_string_pretty` writes for a document, if it
/// writes one.
pub uninterp spec fn json_pretty(doc: serde_json::Value) -> Option<Seq<char>>;

/// `serde_json::from_str`, reading a `Value`. The result depends on `text`
/// alone: the document read, or `None` where `serde_json` reports an error
/// because `text` is not one JSON document.
#[verifier::external_body]
pub(crate) fn read_document(text: &str) -> (r: Option<serde_json::Value>)
    ensures
        r == json_document(text@),
{
    serde_json::from_str::<serde_json::Value>(text).ok()
}

/// `Value::get` with a string key: the member of an object under `key`, and
/// `None` where the document is no object or has no such member.
#[verifier::external_body]
pub(crate) fn member<'a>(doc: &'a serde_json::Value, key: &str) -> (r: Option<&'a serde_json::Value>)
    ensures
        r is Some <==> json_members(*doc).contains_key(key@),
        r matches Some(m) ==> *m == json_members(*doc)[key@],
{
    doc.get(key)
}

/// `Value::as_str`: the text of a JSON string, `None` for anything else.
#[verifier::external_body]
pub(crate) fn text_of<'a>(doc: &'a serde_json::Value) -> (r: Option<&'a str>)
    ensures
        r is Some <==> json_text(*doc) is Some,
        r matches Some(s) ==> json_text(*doc) == Some(s@),
{
    doc.as_str()
}

/// `Value::as_i64`: a JSON integer within `i64`, `None` for anything else.
#[verifier::external_body]
pub(crate) fn signed_of(doc: &serde_json::Value) -> (r: Option<i64>)
    ensures
        r == json_signed(*doc),
{
    doc.as_i64()
}

/// `Value::as_u64`: a JSON integer within `u64`, `None` for anything else.
#[verifier::external_body]
pub(crate) fn unsigned_of(doc: &serde_json::Value) -> (r: Option<u64>)
    ensures
        r == json_unsigned(*doc),
{
    doc.as_u64()
}

/// `Value::as_array`: the elements of a JSON array, `None` for anything else.
#[verifier::external_body]
pub(crate) fn items_of<'a>(doc: &'a serde_json::Value) -> (r: Option<&'a Vec<serde_json::Value>>)
    ensures
        r is Some <==> json_items(*doc) is Some,
        r matches Some(items) ==> json_items(*doc) == Some(items@),
{
    doc.as_array()
}

/// `Value::is_null`.
#[verifier::external_body]
pub(crate) fn is_null(doc: &serde_json::Value) -> (r: bool)
    ensures
        r == json_is_null(*doc),
{
    doc.is_null()
}

/// `Value::Null`, which `is_null` tells from every other document.
#[verifier::external_body]
pub(crate) fn null_value() -> (v: serde_json::Value)
    ensures
        json_is_null(v),
{
    serde_json::Value::Null
}

/// `Value::from` of a string: a JSON string of these characters.
#[verifier::external_body]
pub(crate) fn text_value(s: &str) -> (v: serde_json::Value)
    ensures
        json_text(v) == Some(s@),
{
    serde_json::Value::from(s)
}

/// `Value::from` of a `u64`: a JSON integer that `as_u64` reads back as `n`.
#[verifier::external_body]
pub(crate) fn unsigned_value(n: u64) -> (v: serde_json::Value)
    ensures
        json_unsigned(v) == Some(n),
{
    serde_json::Value::from(n)
}

/// `Value::Array`: a JSON array of these elements in this order.
#[verifier::external_body]
pub(crate) fn list_value(items: Vec<serde_json::Value>) -> (v: serde_json::Value)
    ensures
        json_items(v) == Some(items@),
{
    serde_json::Value::Array(items)
}

/// `Value::from_iter` over pairs of key and member: a JSON object, which is not
/// `null`, with each of these members under its key. The keys have to differ
/// from one another: of two members under one key `serde_json` keeps the later.
#[verifier::external_body]
pub(crate) fn object_value(members: Vec<(String, serde_json::Value)>) -> (v: serde_json::Value)
    requires
        forall|i: int, j: int| 0 <= i < j < members.len() ==> members[i].0@ != members[j].0@,
    ensures
        forall|i: int|
            0 <= i < members.len() ==> json_members(v).contains_key(#[trigger] members[i].0@),
        forall|i: int|
            0 <= i < members.len() ==> json_members(v)[#[trigger] members[i].0@] == members[i].1,
        !json_is_null(v),
{
    serde_json::Value::from_iter(members)
}

/// `serde_json::to_string_pretty` of a document. The text depends on the
/// document alone; `None` where `serde_json` reports an error.
#[verifier::external_body]
pub(crate) fn pretty_text(doc: &serde_json::Value) -> (r: Option<String>)
    ensures
        r is Some <==> json_pretty(*doc) is Some,
        r matches Some(text) ==> json_pretty(*doc) == Some(text@),
{
    serde_json::to_string_pretty(doc).ok()
}

} // verus!

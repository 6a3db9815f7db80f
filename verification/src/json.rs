//! The boundary to `serde_json`: JSON documents are parsed, inspected, built
//! and encoded by that crate. Nothing in this file is proved; each contract
//! below is a statement about `serde_json` that the rest of the library
//! relies on.

use serde_json::Value;
use vstd::prelude::*;

verus! {

/// A JSON document. Its content is visible only through the functions below.
#[verifier::external_type_specification]
#[verifier::external_body]
pub struct ExValue(serde_json::Value);

/// The error of `serde_json`.
#[verifier::external_type_specification]
#[verifier::external_body]
pub struct ExError(serde_json::Error);

/// The document that `serde_json::from_slice` reads from `text`, or `None`
/// where it reports an error.
pub uninterp spec fn json_document(text: Seq<u8>) -> Option<serde_json::Value>;

/// The string that `Value::get` finds under `name` in `document`: `None`
/// unless `document` is an object that has the member and the member is a
/// string.
pub uninterp spec fn json_text_member(document: serde_json::Value, name: Seq<char>) -> Option<
    Seq<char>,
>;

/// The document that `Value::from` makes of a string.
pub uninterp spec fn json_text(text: Seq<char>) -> serde_json::Value;

/// The object that `Value::from_iter` collects from pairs of name and value.
pub uninterp spec fn json_object(
    members: Seq<(Seq<char>, serde_json::Value)>,
) -> serde_json::Value;

/// The bytes that `serde_json::to_vec` writes for `document`, or `None` where
/// it reports an error.
pub uninterp spec fn json_encoding(document: serde_json::Value) -> Option<Seq<u8>>;

/// The members of an object under construction, with each name as characters.
pub open spec fn member_views(members: Seq<(String, Value)>) -> Seq<(Seq<char>, Value)> {
    members.map_values(|m: (String, Value)| (m.0@, m.1))
}

/// Calls `serde_json::from_slice` for a `Value`. The outcome depends on the
/// bytes alone: the same text always gives the same document or fails.
#[verifier::external_body]
pub(crate) fn parse_document(text: &[u8]) -> (r: Result<Value, serde_json::Error>)
    ensures
        match r {
            Ok(document) => json_document(text@) == Some(document),
            Err(_) => json_document(text@) is None,
        },
{
    serde_json::from_slice(text)
}

/// Calls `Value::get` with a string index and hands out the member where it is
/// a string.
#[verifier::external_body]
pub(crate) fn text_member(document: &Value, name: &str) -> (r: Option<String>)
    ensures
        match r {
            Some(text) => json_text_member(*document, name@) == Some(text@),
            None => json_text_member(*document, name@) is None,
        },
{
    match document.get(name) {
        Some(Value::String(text)) => Some(text.clone()),
        _ => None,
    }
}

/// Calls `Value::from` on a string.
#[verifier::external_body]
pub(crate) fn text_value(text: String) -> (document: Value)
    ensures
        document == json_text(text@),
{
    Value::from(text)
}

/// Calls `Value::from_iter` on pairs of name and value.
#[verifier::external_body]
pub(crate) fn object_value(members: Vec<(String, Value)>) -> (document: Value)
    ensures
        document == json_object(member_views(members@)),
{
    Value::from_iter(members)
}

/// Calls `serde_json::to_vec` on a document. The bytes depend on the document
/// alone.
#[verifier::external_body]
pub(crate) fn encode_document(document: &Value) -> (r: Result<Vec<u8>, serde_json::Error>)
    ensures
        match r {
            Ok(bytes) => json_encoding(*document) == Some(bytes@),
            Err(_) => json_encoding(*document) is None,
        },
{
    serde_json::to_vec(document)
}

} // verus!

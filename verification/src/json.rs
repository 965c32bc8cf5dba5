//! JSON documents as `serde_json` holds them, modelled for contracts by a
//! tree of plain values. The items marked `external_body` call into
//! `serde_json`; their contracts are taken on trust from its source.

use vstd::prelude::*;

verus! {

/// A JSON value as contracts see it.
pub enum Json {
    Null,
    Bool(bool),
    /// A number; contracts do not speak of which.
    Number,
    Text(Seq<char>),
    Array(Seq<Json>),
    Object(Map<Seq<char>, Json>),
}

/// `serde_json::Value`, held as it is and read through the functions below.
#[verifier::external_type_specification]
#[verifier::external_body]
pub struct ExValue(serde_json::Value);

/// `serde_json::Error`, the fault that reading a document ends with.
#[verifier::external_type_specification]
#[verifier::external_body]
pub struct ExError(serde_json::Error);

/// The JSON value that a `serde_json::Value` holds.
pub uninterp spec fn json_view(value: serde_json::Value) -> Json;

/// What `serde_json::from_slice` makes of `body`: the document that the
/// bytes write, or the message of the fault that it stops with.
pub uninterp spec fn parse_outcome(body: Seq<u8>) -> Result<Json, Seq<char>>;

/// The message that a `serde_json::Error` displays.
pub uninterp spec fn fault_text(fault: serde_json::Error) -> Seq<char>;

/// The member of `j` under `key`; null where `j` is no object or has no
/// such member.
pub open spec fn member(j: Json, key: Seq<char>) -> Json {
    match j {
        Json::Object(members) => if members.contains_key(key) {
            members[key]
        } else {
            Json::Null
        },
        _ => Json::Null,
    }
}

/// The element of `j` at `index`; null where `j` is no array or is too
/// short.
pub open spec fn element(j: Json, index: int) -> Json {
    match j {
        Json::Array(elements) => if 0 <= index < elements.len() {
            elements[index]
        } else {
            Json::Null
        },
        _ => Json::Null,
    }
}

/// The text of `j` where `j` is a string.
pub open spec fn text(j: Json) -> Option<Seq<char>> {
    match j {
        Json::Text(t) => Some(t),
        _ => None,
    }
}

/// Calls `serde_json::from_slice` for a `Value`. The contract names the
/// outcome: the same bytes always read as the same document, or stop with
/// the same fault.
#[verifier::external_body]
pub(crate) fn from_slice(body: &[u8]) -> (outcome: Result<serde_json::Value, serde_json::Error>)
    ensures
        match outcome {
            Ok(value) => parse_outcome(body@) == Ok::<Json, Seq<char>>(json_view(value)),
            Err(fault) => parse_outcome(body@) == Err::<Json, Seq<char>>(fault_text(fault)),
        },
{
    serde_json::from_slice::<serde_json::Value>(body)
}

/// Calls `to_string` on a `serde_json::Error`, which gives what it
/// displays.
#[verifier::external_body]
pub(crate) fn fault_message(fault: &serde_json::Error) -> (message: String)
    ensures
        message@ == fault_text(*fault),
{
    fault.to_string()
}

/// Indexes a `Value` by a key, as `value[key]` does: the member of an
/// object under that key, and null for a missing member or a value that is
/// no object.
#[verifier::external_body]
pub(crate) fn get_member<'a>(value: &'a serde_json::Value, key: &str) -> (found:
    &'a serde_json::Value)
    ensures
        json_view(*found) == member(json_view(*value), key@),
{
    &value[key]
}

/// Indexes a `Value` by a position, as `value[index]` does: the element of
/// an array at that position, and null past its end or for a value that is
/// no array.
#[verifier::external_body]
pub(crate) fn get_element<'a>(value: &'a serde_json::Value, index: usize) -> (found:
    &'a serde_json::Value)
    ensures
        json_view(*found) == element(json_view(*value), index as int),
{
    &value[index]
}

/// Calls `Value::as_str`: the text of a string, `None` for any other value.
#[verifier::external_body]
pub(crate) fn get_text<'a>(value: &'a serde_json::Value) -> (found: Option<&'a str>)
    ensures
        match found {
            Some(t) => text(json_view(*value)) == Some(t@),
            None => text(json_view(*value)) is None,
        },
{
    value.as_str()
}

} // verus!

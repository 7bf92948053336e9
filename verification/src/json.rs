//! The JSON reader that quote decoding rests on.
//!
//! Parsing is done by `serde_json`. Verus does not look inside that crate, so
//! every item in this file is an assumption about it, stated over a small
//! mathematical picture of a JSON document.

use vstd::prelude::*;

verus! {

/// What a JSON value looks like to the decoder.
pub enum Shape {
    /// A JSON string, by its characters.
    Text(Seq<char>),
    /// A JSON number: its value as a signed 64-bit integer where it is an
    /// integer in that range, and the bit pattern of the nearest double.
    Number { integer: Option<i64>, real_bits: u64 },
    /// Anything else: null, a boolean, an array, an object.
    Other,
}

#[verifier::external_type_specification]
#[verifier::external_body]
pub struct ExJsonValue(serde_json::Value);

#[verifier::external_type_specification]
#[verifier::external_body]
pub struct ExJsonError(serde_json::Error);

/// The members of a JSON object, each by its shape. A value that is no object
/// has no members.
pub uninterp spec fn members(value: serde_json::Value) -> Map<Seq<char>, Shape>;

/// The shape of one JSON value.
pub uninterp spec fn shape(value: serde_json::Value) -> Shape;

/// The members of the document that a byte sequence spells, or `None` where
/// the bytes are not one well-formed JSON text.
pub uninterp spec fn document(body: Seq<u8>) -> Option<Map<Seq<char>, Shape>>;

/// `serde_json::from_slice` at type `serde_json::Value`: succeeds exactly on
/// the byte sequences that `document` accepts, and then yields a value with
/// the members that `document` names.
#[verifier::external_body]
pub(crate) fn parse_document(body: &[u8]) -> (r: Result<serde_json::Value, serde_json::Error>)
    ensures
        match r {
            Ok(value) => document(body@) == Some(members(value)),
            Err(_) => document(body@) is None,
        },
{
    serde_json::from_slice(body)
}

/// `serde_json::Value::get` with a string key: the member of that name, if
/// the value is an object that has one.
#[verifier::external_body]
pub(crate) fn member<'a>(value: &'a serde_json::Value, key: &str) -> (r: Option<&'a serde_json::Value>)
    ensures
        match r {
            Some(found) => members(*value).contains_key(key@) && members(*value)[key@] == shape(*found),
            None => !members(*value).contains_key(key@),
        },
{
    value.get(key)
}

/// `serde_json::Value::as_str`: the text of a JSON string, `None` for any
/// other value.
pub assume_specification<'a>[ serde_json::Value::as_str ](value: &'a serde_json::Value) -> (r: Option<&'a str>)
    ensures
        match r {
            Some(text) => shape(*value) == Shape::Text(text@),
            None => !(shape(*value) is Text),
        },
;

/// `serde_json::Value::as_i64`: the value of a JSON number that is an integer
/// in the signed 64-bit range, `None` for any other value.
pub assume_specification[ serde_json::Value::as_i64 ](value: &serde_json::Value) -> (r: Option<i64>)
    ensures
        match shape(*value) {
            Shape::Number { integer, real_bits } => r == integer,
            _ => r is None,
        },
;

/// `serde_json::Value::as_f64`, handed on as the bit pattern of the double:
/// present for every JSON number, `None` for any other value.
#[verifier::external_body]
pub(crate) fn real_bits(value: &serde_json::Value) -> (r: Option<u64>)
    ensures
        match shape(*value) {
            Shape::Number { integer, real_bits } => r == Some(real_bits),
            _ => r is None,
        },
{
    value.as_f64().map(|number| number.to_bits())
}

} // verus!

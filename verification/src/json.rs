//! JSON documents and UTF-8 text carried through the library.
//!
//! JSON values are `serde_json::Value`s; the library passes them on without
//! looking inside them.

use vstd::prelude::*;
use vstd::utf8::{decode_utf8, valid_utf8};

verus! {

/// A JSON document, parsed and rendered by `serde_json`.
#[verifier::external_type_specification]
#[verifier::external_body]
pub struct ExJsonValue(serde_json::Value);

/// Whether `serde_json` accepts `bytes` as a JSON document.
pub uninterp spec fn json_accepts(bytes: Seq<u8>) -> bool;

/// The JSON document that `serde_json` reads from `bytes`, when it accepts them.
pub uninterp spec fn json_value_of(bytes: Seq<u8>) -> serde_json::Value;

/// The text of the error that `serde_json` reports for `bytes`, when it
/// does not accept them.
pub uninterp spec fn json_error_text(bytes: Seq<u8>) -> Seq<char>;

/// The JSON text that `serde_json` writes for `value`.
pub uninterp spec fn json_text_of(value: serde_json::Value) -> Seq<char>;

/// Parses `bytes` with `serde_json::from_slice` as a `serde_json::Value`.
///
/// Claims that a value comes back exactly when `serde_json` accepts the
/// bytes, that it is the document read from those bytes alone, and that
/// otherwise the error's text depends on the bytes alone.
#[verifier::external_body]
pub(crate) fn parse_json(bytes: &[u8]) -> (res: Result<serde_json::Value, String>)
    ensures
        res is Ok <==> json_accepts(bytes@),
        res matches Ok(v) ==> v == json_value_of(bytes@),
        res matches Err(e) ==> e@ == json_error_text(bytes@),
{
    serde_json::from_slice::<serde_json::Value>(bytes).map_err(|e| e.to_string())
}

/// Writes `value` as JSON text with `serde_json::to_string`.
///
/// Claims that writing succeeds, as it does for a `Value` (its keys are
/// strings and the output is a `Vec`), and that the text depends on the value
/// alone.
#[verifier::external_body]
fn write_json(value: &serde_json::Value) -> (res: Result<String, String>)
    ensures
        res is Ok,
        res matches Ok(s) ==> s@ == json_text_of(*value),
{
    serde_json::to_string(value).map_err(|e| e.to_string())
}

/// The JSON document in `text`, or `None` when `serde_json` does not accept it.
pub fn json_from_text(text: &[u8]) -> (res: Option<serde_json::Value>)
    ensures
        res is Some <==> json_accepts(text@),
        res matches Some(v) ==> v == json_value_of(text@),
{
    match parse_json(text) {
        Ok(v) => Some(v),
        Err(_) => None,
    }
}

/// `value` written as JSON text.
pub fn json_text(value: &serde_json::Value) -> (res: String)
    ensures
        res@ == json_text_of(*value),
{
    match write_json(value) {
        Ok(s) => s,
        Err(e) => e,
    }
}

/// Decodes `bytes` with `std::str::from_utf8`: text exactly when the bytes
/// are valid UTF-8, and then the characters they encode.
#[verifier::external_body]
pub(crate) fn utf8_text(bytes: &[u8]) -> (res: Option<&str>)
    ensures
        res is Some <==> valid_utf8(bytes@),
        res matches Some(s) ==> s@ == decode_utf8(bytes@),
{
    std::str::from_utf8(bytes).ok()
}

} // verus!

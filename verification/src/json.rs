//! The calls into `serde_json`, and what the library believes of them.
//!
//! A parsed JSON value stays a `serde_json::Value`. Contracts cannot look
//! inside one, so each call's result has a name here, and the library's own
//! contracts are stated over those names.

use crate::text::{opt_text, text_or_empty};
use vstd::prelude::*;

verus! {

/// `serde_json::Value`, a parsed JSON value. Nothing of its inside is known
/// to the proofs.
#[verifier::external_type_specification]
#[verifier::external_body]
pub struct ExValue(serde_json::Value);

/// `serde_json::Error`, the reason why a text is not the JSON asked for.
/// The library only tells it apart from success.
#[verifier::external_type_specification]
#[verifier::external_body]
pub struct ExError(serde_json::Error);

/// The value that `serde_json::from_slice` reads from `body` when asked for
/// a `serde_json::Value`, or `None` where it reports an error.
pub uninterp spec fn json_document(body: Seq<u8>) -> Option<serde_json::Value>;

/// The elements that `serde_json::from_slice` reads from `body` when asked
/// for a `Vec<serde_json::Value>`, in the order of the text, or `None` where
/// it reports an error.
pub uninterp spec fn json_array(body: Seq<u8>) -> Option<Seq<serde_json::Value>>;

/// The value that indexing `value` with the string `key` gives: the member
/// of that name where `value` is an object that has one, JSON null
/// otherwise.
pub uninterp spec fn json_member(value: serde_json::Value, key: Seq<char>) -> serde_json::Value;

/// The characters that `serde_json::Value::as_str` gives for `value`: those
/// of the string where `value` is a JSON string, `None` otherwise.
pub uninterp spec fn json_text(value: serde_json::Value) -> Option<Seq<char>>;

/// Calls `serde_json::from_slice` for a `serde_json::Value`. The contract
/// names the outcome [`json_document`]: the call is a function of the bytes
/// alone, and succeeds exactly where that name is `Some`.
#[verifier::external_body]
pub(crate) fn parse_document(body: &[u8]) -> (parsed: Result<serde_json::Value, serde_json::Error>)
    ensures
        parsed is Ok <==> json_document(body@) is Some,
        parsed matches Ok(value) ==> json_document(body@) == Some(value),
{
    serde_json::from_slice::<serde_json::Value>(body)
}

/// Calls `serde_json::from_slice` for a `Vec<serde_json::Value>`. The
/// contract names the outcome [`json_array`]: the call is a function of the
/// bytes alone, and succeeds exactly where that name is `Some`.
#[verifier::external_body]
pub(crate) fn parse_array(body: &[u8]) -> (parsed: Result<Vec<serde_json::Value>, serde_json::Error>)
    ensures
        parsed is Ok <==> json_array(body@) is Some,
        parsed matches Ok(elements) ==> json_array(body@) == Some(elements@),
{
    serde_json::from_slice::<Vec<serde_json::Value>>(body)
}

/// Applies the `Index<&str>` operator of `serde_json::Value`, `value[key]`.
/// That operator never panics: it gives JSON null where there is no such
/// member. The contract names the value that comes back [`json_member`].
#[verifier::external_body]
pub(crate) fn member<'a>(value: &'a serde_json::Value, key: &str) -> (found: &'a serde_json::Value)
    ensures
        *found == json_member(*value, key@),
{
    &value[key]
}

/// Calls `serde_json::Value::as_str`. The contract names the string that
/// comes back, or its absence, [`json_text`].
#[verifier::external_body]
pub(crate) fn text<'a>(value: &'a serde_json::Value) -> (found: Option<&'a str>)
    ensures
        opt_text(found) == json_text(*value),
{
    value.as_str()
}

/// The text of the member `key` of `value`, empty where `value` has no such
/// member or the member is no string.
pub open spec fn field_text(value: serde_json::Value, key: Seq<char>) -> Seq<char> {
    text_or_empty(json_text(json_member(value, key)))
}

/// The string that the member `key` of `value` holds, if it holds one.
pub(crate) fn string_field<'a>(value: &'a serde_json::Value, key: &str) -> (found: Option<&'a str>)
    ensures
        opt_text(found) == json_text(json_member(*value, key@)),
{
    text(member(value, key))
}

} // verus!

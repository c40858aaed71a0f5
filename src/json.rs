//! The JSON values carried opaquely through envelopes and events, and the
//! serde_json calls that encode and decode them.
use vstd::prelude::*;

verus! {

#[verifier::external_type_specification]
#[verifier::external_body]
pub struct ExValue(serde_json::Value);

#[verifier::external_type_specification]
#[verifier::external_body]
pub struct ExJsonError(serde_json::Error);

/// Whether serde_json reads `b` as one JSON value: well-formed UTF-8 JSON
/// text, nested no deeper than its recursion limit of 128.
pub uninterp spec fn is_json_text(b: Seq<u8>) -> bool;

/// Relies on serde_json::from_slice into a `Value`: it succeeds exactly on
/// the texts it reads as one value.
#[verifier::external_body]
pub(crate) fn decode_value(b: &[u8]) -> (r: Option<serde_json::Value>)
    ensures
        r is Some <==> is_json_text(b@),
{
    serde_json::from_slice::<serde_json::Value>(b).ok()
}

/// Relies on serde_json::to_vec, which renders a value as JSON text. Its one
/// documented failure is a map with non-string keys, which a `Value` never
/// holds, and writing into a `Vec` does not fail.
#[verifier::external_body]
pub(crate) fn encode_value(v: &serde_json::Value) -> (r: Result<Vec<u8>, serde_json::Error>)
    ensures
        r is Ok,
{
    serde_json::to_vec(v)
}

/// Relies on serde_json's `Value::Null`, the JSON `null`.
#[verifier::external_body]
pub(crate) fn null_value() -> (r: serde_json::Value) {
    serde_json::Value::Null
}

} // verus!

//! Trusted boundary to serde_json: parsing returned payloads into JSON
//! trees and reading them back out.
//!
//! A parsed tree is opaque here; the decoders walk it through these
//! accessors and build the crate's own result types, and that mapping is
//! what is verified.

use vstd::prelude::*;

verus! {

#[verifier::external_type_specification]
#[verifier::external_body]
pub struct ExValue(serde_json::Value);

/// Relies on serde_json::from_str::<Value>: parses a JSON document, and
/// rejects text that is not one; a rejection is rendered as its
/// human-readable description.
#[verifier::external_body]
pub(crate) fn parse_json(text: &str) -> Result<serde_json::Value, String> {
    match serde_json::from_str(text) {
        Ok(v) => Ok(v),
        Err(e) => Err(e.to_string()),
    }
}

/// Relies on serde_json::Value::get: the value under a key of a JSON
/// object, where the value is an object that has the key.
#[verifier::external_body]
pub(crate) fn json_get<'a>(v: &'a serde_json::Value, key: &str) -> Option<&'a serde_json::Value> {
    v.get(key)
}

/// Relies on serde_json::Value::as_bool: the boolean a JSON boolean holds.
#[verifier::external_body]
pub(crate) fn json_as_bool(v: &serde_json::Value) -> Option<bool> {
    v.as_bool()
}

/// Relies on serde_json::Value::as_str: the text a JSON string holds.
#[verifier::external_body]
pub(crate) fn json_as_str<'a>(v: &'a serde_json::Value) -> Option<&'a str> {
    v.as_str()
}

/// Relies on serde_json::Value::as_i64: the signed integer a JSON number
/// holds, where it is one.
#[verifier::external_body]
pub(crate) fn json_as_i64(v: &serde_json::Value) -> Option<i64> {
    v.as_i64()
}

/// Relies on serde_json::Value::as_u64: the unsigned integer a JSON number
/// holds, where it is one.
#[verifier::external_body]
pub(crate) fn json_as_u64(v: &serde_json::Value) -> Option<u64> {
    v.as_u64()
}

/// Relies on serde_json::Value::as_array: the elements of a JSON array.
#[verifier::external_body]
pub(crate) fn json_as_array<'a>(v: &'a serde_json::Value) -> Option<&'a Vec<serde_json::Value>> {
    v.as_array()
}

/// Relies on serde_json::Value::is_null: whether the value is JSON null.
#[verifier::external_body]
pub(crate) fn json_is_null(v: &serde_json::Value) -> bool {
    v.is_null()
}

} // verus!

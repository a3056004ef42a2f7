//! The JSON values the external tool's metadata output is read
//! through. The values are opaque here: serde_json parses and
//! navigates them behind the trusted items below, and the verified
//! metadata readers work on what comes out.

use vstd::prelude::*;

use crate::error::YtdlError;

verus! {

#[verifier::external_type_specification]
#[verifier::external_body]
pub struct ExJsonValue(serde_json::Value);

/// Whether serde_json parses the text as JSON. Parsing is a pure
/// function of the text, so success is too.
pub uninterp spec fn json_parses(s: Seq<char>) -> bool;

/// Relies on serde_json::from_str: parses JSON text into a value
/// tree; whether it succeeds depends on the text alone.
#[verifier::external_body]
pub(crate) fn json_from_str(s: &str) -> (r: Result<serde_json::Value, YtdlError>)
    ensures
        r is Ok <==> json_parses(s@),
        r matches Err(e) ==> e is JsonParse,
{
    match serde_json::from_str::<serde_json::Value>(s) {
        Ok(v) => Ok(v),
        Err(e) => Err(YtdlError::JsonParse(e.to_string())),
    }
}

/// Relies on serde_json::Value::get: looks a key up in a JSON
/// object; `None` on anything else.
#[verifier::external_body]
pub(crate) fn json_get<'a>(v: &'a serde_json::Value, key: &str) -> (r: Option<&'a serde_json::Value>) {
    v.get(key)
}

/// Relies on serde_json::Value::as_str: the string a JSON string
/// holds; `None` on anything else.
#[verifier::external_body]
pub(crate) fn json_as_str<'a>(v: &'a serde_json::Value) -> (r: Option<&'a str>) {
    v.as_str()
}

/// Relies on serde_json::Value::as_u64: the number a JSON number
/// holds, when it is an unsigned integer; `None` otherwise.
#[verifier::external_body]
pub(crate) fn json_as_u64(v: &serde_json::Value) -> (r: Option<u64>) {
    v.as_u64()
}

/// Relies on serde_json::Value::as_array: the elements a JSON array
/// holds; `None` on anything else.
#[verifier::external_body]
pub(crate) fn json_as_array<'a>(v: &'a serde_json::Value) -> (r: Option<&'a Vec<serde_json::Value>>) {
    v.as_array()
}

/// The string under `key`, or `default` when the key is missing or
/// holds no string.
pub(crate) fn get_str_or(v: &serde_json::Value, key: &str, default: &str) -> (r: String)
{
    match json_get(v, key) {
        Option::Some(inner) => match json_as_str(inner) {
            Option::Some(s) => s.to_owned(),
            Option::None => default.to_owned(),
        },
        Option::None => default.to_owned(),
    }
}

/// The string under `key`, if it is there and holds one.
pub(crate) fn get_str_opt(v: &serde_json::Value, key: &str) -> (r: Option<String>)
{
    match json_get(v, key) {
        Option::Some(inner) => match json_as_str(inner) {
            Option::Some(s) => Some(s.to_owned()),
            Option::None => None,
        },
        Option::None => None,
    }
}

/// The unsigned number under `key`, if it is there and holds one.
pub(crate) fn get_u64_opt(v: &serde_json::Value, key: &str) -> (r: Option<u64>)
{
    match json_get(v, key) {
        Option::Some(inner) => json_as_u64(inner),
        Option::None => None,
    }
}

} // verus!

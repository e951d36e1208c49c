//! The generic JSON tree that responses are parsed into, and the trusted
//! surface over `serde_json` that the rest of the crate goes through.
//!
//! A `serde_json::Value` is opaque to the verifier: the crate carries it
//! through and reads it only with the accessors below.

use vstd::prelude::*;

verus! {

#[verifier::external_type_specification]
#[verifier::external_body]
pub struct ExValue(serde_json::Value);

/// Whether `serde_json::from_str::<Value>` accepts the text as JSON.
pub uninterp spec fn json_ok(s: Seq<char>) -> bool;

/// The JSON tree that `serde_json::from_str::<Value>` parses the text into.
pub uninterp spec fn json_val(s: Seq<char>) -> serde_json::Value;

/// Relies on `serde_json::from_str::<Value>`: whether a text is JSON, and
/// which tree it parses to, depend on the text alone.  The `Err` payload is
/// the parse failure's description.
#[verifier::external_body]
pub(crate) fn parse_json(s: &str) -> (r: Result<serde_json::Value, String>)
    ensures
        r is Ok <==> json_ok(s@),
        r matches Ok(v) ==> v == json_val(s@),
{
    match serde_json::from_str::<serde_json::Value>(s) {
        Ok(v) => Ok(v),
        Err(e) => Err(e.to_string()),
    }
}

/// Relies on `serde_json::Value::get`: looks a key up when the value is an
/// object.  The tree is opaque here, so nothing is claimed of the result.
#[verifier::external_body]
pub(crate) fn value_get<'a>(v: &'a serde_json::Value, key: &str) -> Option<&'a serde_json::Value> {
    v.get(key)
}

/// Relies on `serde_json::Value::as_str`: the text of a JSON string value.
#[verifier::external_body]
pub(crate) fn value_as_string(v: &serde_json::Value) -> Option<String> {
    match v.as_str() {
        Some(s) => Some(s.to_string()),
        None => None,
    }
}

/// Relies on `serde_json::Value::as_bool`: the value of a JSON boolean.
#[verifier::external_body]
pub(crate) fn value_as_bool(v: &serde_json::Value) -> Option<bool> {
    v.as_bool()
}

/// Relies on `serde_json::Value::as_u64`: a JSON number as an unsigned
/// integer, when it is one.
#[verifier::external_body]
pub(crate) fn value_as_u64(v: &serde_json::Value) -> Option<u64> {
    v.as_u64()
}

/// Relies on `serde_json::Value::as_array`: the elements of a JSON array.
#[verifier::external_body]
pub(crate) fn value_as_array<'a>(v: &'a serde_json::Value) -> Option<&'a Vec<serde_json::Value>> {
    v.as_array()
}

/// Relies on `serde_json::Value::is_null`: whether the value is JSON `null`.
#[verifier::external_body]
pub(crate) fn value_is_null(v: &serde_json::Value) -> bool {
    v.is_null()
}

/// Reads an array of strings out of a JSON value: `None` unless the value
/// is an array whose elements are all strings.
pub(crate) fn value_as_string_vec(v: &serde_json::Value) -> Option<Vec<String>> {
    match value_as_array(v) {
        Some(items) => {
            let mut out: Vec<String> = Vec::new();
            let mut i: usize = 0;
            while i < items.len()
                decreases items.len() - i,
            {
                match value_as_string(&items[i]) {
                    Some(s) => out.push(s),
                    None => {
                        return None;
                    },
                }
                i = i + 1;
            }
            Some(out)
        },
        None => None,
    }
}

/// Reads a JSON number as a `u32` when it is one and fits.
pub(crate) fn value_as_u32(v: &serde_json::Value) -> Option<u32> {
    match value_as_u64(v) {
        Some(n) => {
            if n <= 0xffff_ffff {
                Some(n as u32)
            } else {
                None
            }
        },
        None => None,
    }
}

} // verus!

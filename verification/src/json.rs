//! Trusted boundary around `serde_json`: the parsed document type and the
//! parse step that both the cache reader and the cache writer rely on.

use vstd::prelude::*;

verus! {

#[verifier::external_type_specification]
#[verifier::external_body]
pub struct ExValue(serde_json::Value);

/// Whether a byte sequence is a well-formed JSON document, that is, whether
/// `serde_json::from_slice::<serde_json::Value>` accepts it. The outcome is a
/// function of the bytes alone.
pub uninterp spec fn is_json(bytes: Seq<u8>) -> bool;

/// Relies on `serde_json::from_slice::<serde_json::Value>`: it returns `Ok`
/// exactly on well-formed JSON text, and its outcome depends on the input
/// bytes alone.
#[verifier::external_body]
pub(crate) fn parse_json(bytes: &Vec<u8>) -> (r: Option<serde_json::Value>)
    ensures
        r is Some <==> is_json(bytes@),
{
    serde_json::from_slice::<serde_json::Value>(bytes.as_slice()).ok()
}

} // verus!

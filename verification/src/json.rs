//! The structured-document type of the store's records, and the one decoding
//! step the response interpreter needs. Documents are arbitrary JSON trees;
//! this library carries them through opaquely and never looks inside one.

use vstd::prelude::*;

verus! {

/// serde_json's document type, carried through this library as an opaque
/// value.
#[verifier::external_type_specification]
#[verifier::external_body]
pub struct ExValue(serde_json::Value);

/// Whether serde_json accepts `s` as one JSON document.
pub uninterp spec fn json_ok(s: Seq<char>) -> bool;

/// Relies on serde_json::from_str::<Value>: it returns a document exactly
/// when the text is valid JSON, and which one depends on the text alone.
#[verifier::external_body]
pub(crate) fn parse_json(s: &str) -> (r: Option<serde_json::Value>)
    ensures
        r is Some <==> json_ok(s@),
{
    serde_json::from_str(s).ok()
}

} // verus!

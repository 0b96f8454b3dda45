//! JSON documents are carried through the gateway without a schema.
//! Decoding them is left to `serde_json`; this module states what the rest of
//! the crate relies on.

use serde_json::Value;
use vstd::prelude::*;

verus! {

/// `serde_json::Value`, a decoded JSON document. Nothing inside it is
/// visible to the proofs: a document is only carried from where it is decoded
/// to where it is handed on.
#[verifier::external_type_specification]
#[verifier::external_body]
pub struct ExValue(serde_json::Value);

/// `serde_json::Error`, what decoding fails with. Nothing of it is used: a
/// body that cannot be decoded is reported with the body itself.
#[verifier::external_type_specification]
#[verifier::external_body]
pub struct ExJsonError(serde_json::Error);

/// `Clone::clone` on a `serde_json::Value`. Trusted: the copy equals the
/// value it was made from.
pub assume_specification[ <serde_json::Value as Clone>::clone ](value: &Value) -> (copy: Value)
    ensures
        copy == *value,
;

/// The document that `serde_json::from_slice` decodes `bytes` to, or nothing
/// where it rejects them.
pub uninterp spec fn decoded_json(bytes: Seq<u8>) -> Option<Value>;

/// Whether `bytes` is the text of a JSON document.
pub open spec fn is_json_text(bytes: Seq<u8>) -> bool {
    decoded_json(bytes) is Some
}

/// Calls `serde_json::from_slice` to decode `body` as a `serde_json::Value`.
/// Trusted: what comes back depends on the bytes alone, so it is the
/// document that `decoded_json` names, or an error where it names none.
/// Nothing is claimed about what the document holds or what the error says.
#[verifier::external_body]
pub(crate) fn parse_value(body: &[u8]) -> (parsed: Result<Value, serde_json::Error>)
    ensures
        match parsed {
            Ok(document) => decoded_json(body@) == Some(document),
            Err(_) => decoded_json(body@) is None,
        },
{
    serde_json::from_slice::<Value>(body)
}

} // verus!

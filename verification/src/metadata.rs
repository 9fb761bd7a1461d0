//! Free-form metadata carried through the model untouched.

use vstd::prelude::*;

verus! {

/// The `serde_json::Value` type, opaque to the verifier: entities and
/// edges carry such a value through without reading it.
#[verifier::external_type_specification]
#[verifier::external_body]
pub struct ExValue(serde_json::Value);

/// Relies on `serde_json::Value`'s derived `Clone`: the clone is a copy
/// of the value, structurally equal to the original.
#[verifier::external_body]
fn clone_value(v: &serde_json::Value) -> (r: serde_json::Value)
    ensures
        r == *v,
{
    v.clone()
}

/// A fresh copy of an optional metadata value.
pub fn clone_metadata(m: &Option<serde_json::Value>) -> (r: Option<serde_json::Value>)
    ensures
        r == *m,
{
    match m {
        Some(v) => Some(clone_value(v)),
        None => None,
    }
}

} // verus!

//! The dynamically typed JSON value of the wire format.
//!
//! Handler arguments, tool input schemas and error data are JSON values
//! that the core carries through without reading; the type is declared here
//! so that it can stand in signatures and fields.

use vstd::prelude::*;

verus! {

#[verifier::external_type_specification]
#[verifier::external_body]
pub struct ExValue(serde_json::Value);

/// Relies on `serde_json::Value`'s derived `Clone`: a deep copy of the
/// value tree, equal to the original.
#[verifier::external_body]
pub fn clone_value(v: &serde_json::Value) -> (r: serde_json::Value)
    ensures
        r == *v,
{
    v.clone()
}

} // verus!

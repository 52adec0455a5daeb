//! The JSON values that the library carries without reading them.

use vstd::prelude::*;

verus! {

/// A JSON value of `serde_json`, opaque to the proofs: records and replies
/// hold such values and hand them on unchanged.
#[verifier::external_type_specification]
#[verifier::external_body]
pub struct ExJsonValue(serde_json::Value);

/// `Clone` of `serde_json::Value`, derived in `serde_json`, copies the value
/// member by member: the copy equals the original.
pub assume_specification[ <serde_json::Value as Clone>::clone ](v: &serde_json::Value) -> (r:
    serde_json::Value)
    ensures
        r == *v,
;

} // verus!

//! JSON values that the library carries through unchanged (merchant metadata).
use vstd::prelude::*;

verus! {

/// serde_json's JSON value, carried opaquely.
#[verifier::external_type_specification]
#[verifier::external_body]
pub struct ExJsonValue(serde_json::Value);

/// Relies on serde_json's derived `Clone` for `Value`: the copy is the same value.
pub assume_specification[ <serde_json::Value as Clone>::clone ](v: &serde_json::Value) -> (r: serde_json::Value)
    ensures
        r == *v,
;

/// Relies on `serde_json::Map::new` and `Value::Object`: an empty JSON object.
#[verifier::external_body]
pub(crate) fn empty_object() -> (r: serde_json::Value) {
    serde_json::Value::Object(serde_json::Map::new())
}

} // verus!

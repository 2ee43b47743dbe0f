//! JSON values that the library carries without looking inside.

use vstd::prelude::*;

verus! {

/// A JSON value, as `serde_json` represents it.
#[verifier::external_type_specification]
#[verifier::external_body]
pub struct ExJsonValue(serde_json::Value);

/// A JSON value carried opaquely through the data model.
pub type JsonValue = serde_json::Value;

/// Copies a JSON value.
///
/// Trusted: `serde_json::Value` derives `Clone`, which copies the value
/// member by member, so the copy is the same value.
pub assume_specification[ <serde_json::Value as Clone>::clone ](v: &serde_json::Value) -> (r:
    serde_json::Value)
    ensures
        r == *v,
;

/// The JSON object `{key: value}` with one string member.
pub uninterp spec fn spec_json_object_with_string(key: Seq<char>, value: Seq<char>) -> JsonValue;

/// Builds the JSON object `{key: value}` with one string member.
///
/// Trusted: calls `serde_json::Map::insert` on a new map and wraps it with
/// `serde_json::Value::Object`; the result depends on the key and the value
/// alone, and the contract names it.
#[verifier::external_body]
pub(crate) fn json_object_with_string(key: &str, value: &str) -> (r: JsonValue)
    ensures
        r == spec_json_object_with_string(key@, value@),
{
    let mut m = serde_json::Map::new();
    m.insert(key.to_string(), serde_json::Value::String(value.to_string()));
    serde_json::Value::Object(m)
}

} // verus!

//! JSON documents that the node returns, read through `serde_json`.

use serde_json::Value;
use vstd::prelude::*;

verus! {

/// `serde_json::Value`: a JSON document, carried through as it is. Of what
/// it holds only `json_members` and `json_number` speak.
#[verifier::external_type_specification]
#[verifier::external_body]
pub struct ExValue(serde_json::Value);

/// What a JSON value holds by key: the members of an object, and nothing
/// for every other value.
pub uninterp spec fn json_members(document: Value) -> Map<Seq<char>, Value>;

/// The number that a JSON value is, as the bit pattern of a double-precision
/// float, or `None` where the value is not a number.
pub uninterp spec fn json_number(value: Value) -> Option<u64>;

/// The member of `document` under `key`, where it has one.
pub open spec fn json_member(document: Value, key: Seq<char>) -> Option<Value> {
    if json_members(document).contains_key(key) {
        Some(json_members(document)[key])
    } else {
        None
    }
}

/// Calls the index operator of `serde_json::Value` with a string key. The
/// operator does not panic. Where `document` is an object with a member
/// under `key`, it yields that member. Otherwise it yields the null value,
/// of which the contract says only what its callers use: it is no number.
#[verifier::external_body]
pub(crate) fn member<'a>(document: &'a Value, key: &str) -> (found: &'a Value)
    ensures
        json_members(*document).contains_key(key@) ==> *found == json_members(*document)[key@],
        !json_members(*document).contains_key(key@) ==> json_number(*found) is None,
{
    &document[key]
}

/// Calls `serde_json::Value::as_f64` and hands the float back as its bit
/// pattern. The call yields a float for every JSON number and `None` for
/// every other value; the contract gives that outcome its name.
#[verifier::external_body]
pub(crate) fn number(value: &Value) -> (bits: Option<u64>)
    ensures
        bits == json_number(*value),
{
    match value.as_f64() {
        Some(x) => Some(x.to_bits()),
        None => None,
    }
}

} // verus!

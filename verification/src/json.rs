//! The JSON values that travel inside protocol messages.
//!
//! Their content is handled by `serde_json`; the library only carries them
//! through, looks keys up, and builds empty objects.
use vstd::prelude::*;

verus! {

#[verifier::external_type_specification]
#[verifier::external_body]
pub struct ExJsonValue(serde_json::Value);

#[verifier::external_type_specification]
#[verifier::external_body]
#[verifier::reject_recursive_types(K)]
#[verifier::reject_recursive_types(V)]
pub struct ExJsonMap<K, V>(serde_json::Map<K, V>);

/// A JSON object: keys are strings, values are JSON values.
pub type JsonObject = serde_json::Map<String, serde_json::Value>;

/// What a JSON object holds: the value stored under each key.
pub uninterp spec fn json_object_entries(obj: serde_json::Map<String, serde_json::Value>) -> Map<
    Seq<char>,
    serde_json::Value,
>;

/// The keys present in a JSON object.
pub open spec fn json_object_keys(obj: serde_json::Map<String, serde_json::Value>) -> Set<Seq<char>> {
    json_object_entries(obj).dom()
}

/// The contents of an object that holds nothing.
pub open spec fn no_entries() -> Map<Seq<char>, serde_json::Value> {
    Map::empty()
}

/// `serde_json::Map::new`: an object that holds nothing.
#[verifier::external_body]
pub fn empty_json_object() -> (r: JsonObject)
    ensures
        json_object_entries(r) == no_entries(),
{
    serde_json::Map::new()
}

/// `serde_json::Map::get`: the value stored under `key`, if the key is
/// present.
#[verifier::external_body]
pub fn json_object_get<'a>(obj: &'a JsonObject, key: &str) -> (r: Option<&'a serde_json::Value>)
    ensures
        r is Some <==> json_object_entries(*obj).dom().contains(key@),
        r matches Some(v) ==> *v == json_object_entries(*obj)[key@],
{
    obj.get(key)
}

/// `<serde_json::Value as Clone>::clone`: a copy equal to the value copied.
#[verifier::external_body]
pub fn json_value_clone(v: &serde_json::Value) -> (r: serde_json::Value)
    ensures
        r == *v,
{
    v.clone()
}

} // verus!

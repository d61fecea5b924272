//! JSON values as `serde_json` holds them, and what the contracts say of them.
use vstd::prelude::*;
use zed_extension_api::serde_json::Value;

verus! {

/// The contents of a JSON value.
pub enum Json {
    Null,
    Bool(bool),
    /// A number, by the text that it is printed as.
    Number(Seq<char>),
    Text(Seq<char>),
    Array(Seq<Json>),
    Object(Map<Seq<char>, Json>),
}

/// `serde_json::Value`: a JSON value.
#[verifier::external_type_specification]
#[verifier::external_body]
pub struct ExValue(zed_extension_api::serde_json::Value);

/// `serde_json::Map`: the members of a JSON object.
#[verifier::external_type_specification]
#[verifier::external_body]
#[verifier::reject_recursive_types(K)]
#[verifier::reject_recursive_types(V)]
pub struct ExJsonMap<K, V>(zed_extension_api::serde_json::Map<K, V>);

/// What a JSON value holds.
pub uninterp spec fn json(value: Value) -> Json;

/// What the members of a JSON object are.
pub uninterp spec fn members(
    map: zed_extension_api::serde_json::Map<String, Value>,
) -> Map<Seq<char>, Json>;

/// `Value::as_bool` gives the boolean that the value is, and nothing for any other value.
pub assume_specification [ zed_extension_api::serde_json::Value::as_bool ](
    value: &Value,
) -> (flag: Option<bool>)
    ensures
        flag == (match json(*value) {
            Json::Bool(b) => Some(b),
            _ => None,
        }),
;

/// `Value::as_str` gives the text that the value is, and nothing for any other value.
pub assume_specification [ zed_extension_api::serde_json::Value::as_str ](
    value: &Value,
) -> (text: Option<&str>)
    ensures
        text.deep_view() == (match json(*value) {
            Json::Text(t) => Some(t),
            _ => None,
        }),
;

/// `Map::new` makes an object without members.
pub assume_specification [ zed_extension_api::serde_json::Map::<String, Value>::new ]() -> (map:
    zed_extension_api::serde_json::Map<String, Value>)
    ensures
        members(map) == (Map::<Seq<char>, Json>::empty()),
;

/// `Map::insert` sets a member and gives back what it was before, if it was there.
pub assume_specification [ zed_extension_api::serde_json::Map::<String, Value>::insert ](
    map: &mut zed_extension_api::serde_json::Map<String, Value>,
    key: String,
    value: Value,
) -> (previous: Option<Value>)
    ensures
        members(*final(map)) == members(*old(map)).insert(key@, json(value)),
        previous is Some <==> members(*old(map)).contains_key(key@),
        previous is Some ==> json(previous->0) == members(*old(map))[key@],
;

/// Calls `Value::get` with a string: gives the member of that name, and nothing where the object
/// has no such member or the value is no object.
#[verifier::external_body]
pub(crate) fn get_member<'a>(value: &'a Value, key: &str) -> (found: Option<&'a Value>)
    ensures
        found is Some <==> member(json(*value), key@) is Some,
        found is Some ==> json(*found->0) == member(json(*value), key@)->0,
{
    value.get(key)
}

/// Makes a `Value::Bool`: a JSON value that is the boolean.
#[verifier::external_body]
pub(crate) fn bool_value(flag: bool) -> (value: Value)
    ensures
        json(value) == Json::Bool(flag),
{
    Value::Bool(flag)
}

/// Makes a `Value::Object`: a JSON value that is the object with the given members.
#[verifier::external_body]
pub(crate) fn object_value(
    map: zed_extension_api::serde_json::Map<String, Value>,
) -> (value: Value)
    ensures
        json(value) == Json::Object(members(map)),
{
    Value::Object(map)
}

/// Takes a `Value::Object` apart: gives the members of an object, and nothing for any other
/// value.
#[verifier::external_body]
pub(crate) fn into_members(
    value: Value,
) -> (map: Option<zed_extension_api::serde_json::Map<String, Value>>)
    ensures
        map is Some <==> json(value) is Object,
        map is Some ==> json(value) == Json::Object(members(map->0)),
{
    match value {
        Value::Object(map) => Some(map),
        _ => None,
    }
}

/// Calls `Map::into_iter`: hands out every member once, in an order that is not said.
#[verifier::external_body]
pub(crate) fn into_entries(
    map: zed_extension_api::serde_json::Map<String, Value>,
) -> (entries: Vec<(String, Value)>)
    ensures
        are_members(entries@, members(map)),
{
    map.into_iter().collect()
}

/// The member of that name, if the value is an object that has it.
pub open spec fn member(value: Json, key: Seq<char>) -> Option<Json> {
    match value {
        Json::Object(map) if map.contains_key(key) => Some(map[key]),
        _ => None,
    }
}

/// Whether the entries are the members of an object, each of them once.
pub open spec fn are_members(entries: Seq<(String, Value)>, map: Map<Seq<char>, Json>) -> bool {
    &&& forall|i: int, j: int|
        0 <= i < j < entries.len() ==> (#[trigger] entries[i]).0@ != (#[trigger] entries[j]).0@
    &&& forall|i: int|
        0 <= i < entries.len() ==> map.contains_key((#[trigger] entries[i]).0@)
            && map[entries[i].0@] == json(entries[i].1)
    &&& forall|key: Seq<char>| #[trigger]
        map.contains_key(key) ==> exists|i: int|
            0 <= i < entries.len() && (#[trigger] entries[i]).0@ == key
}

} // verus!

//! JSON values: what the library reads and builds of `serde_json::Value`.
use vstd::prelude::*;

verus! {

/// What a JSON value holds. Of a number only that it is one.
pub enum Json {
    Null,
    Bool(bool),
    Number,
    Text(Seq<char>),
    Array(Seq<Json>),
    Object(Map<Seq<char>, Json>),
}

/// The member of `value` under `key`; `Null` where there is none.
pub open spec fn member(value: Json, key: Seq<char>) -> Json {
    match value {
        Json::Object(members) => if members.dom().contains(key) {
            members[key]
        } else {
            Json::Null
        },
        _ => Json::Null,
    }
}

/// The item of `value` at `index`; `Null` where there is none.
pub open spec fn item(value: Json, index: int) -> Json {
    match value {
        Json::Array(items) => if 0 <= index < items.len() {
            items[index]
        } else {
            Json::Null
        },
        _ => Json::Null,
    }
}

/// `serde_json::Value`, seen through [`held`] alone.
#[verifier::external_type_specification]
#[verifier::external_body]
pub struct ExValue(serde_json::Value);

/// `serde_json::Error`, carried through without a look inside.
#[verifier::external_type_specification]
#[verifier::external_body]
pub struct ExError(serde_json::Error);

/// What a `serde_json::Value` holds.
pub uninterp spec fn held(value: serde_json::Value) -> Json;

/// What `serde_json::from_slice` reads out of a text of JSON, where it can.
pub uninterp spec fn parsed(bytes: Seq<u8>) -> Option<Json>;

/// `serde_json::from_slice`, into a `Value`. The grammar is not spelled out:
/// whether the bytes are JSON, and which value they denote, is said to be a
/// function of the bytes.
#[verifier::external_body]
pub(crate) fn parse(bytes: &[u8]) -> (r: Result<serde_json::Value, serde_json::Error>)
    ensures
        r is Ok <==> parsed(bytes@) is Some,
        r matches Ok(value) ==> parsed(bytes@) == Some(held(value)),
{
    serde_json::from_slice(bytes)
}

/// `value[key]` of `serde_json`: the member under `key` of an object; null
/// where the value is no object or has no such member.
#[verifier::external_body]
pub(crate) fn member_of<'a>(value: &'a serde_json::Value, key: &str) -> (r: &'a serde_json::Value)
    ensures
        held(*r) == member(held(*value), key@),
{
    &value[key]
}

/// `value[index]` of `serde_json`: the item at `index` of an array; null
/// where the value is no array or is too short.
#[verifier::external_body]
pub(crate) fn item_of(value: &serde_json::Value, index: usize) -> (r: &serde_json::Value)
    ensures
        held(*r) == item(held(*value), index as int),
{
    &value[index]
}

/// `serde_json::Value::as_str`: the text of a JSON string, nothing for any
/// other value.
#[verifier::external_body]
pub(crate) fn as_text(value: &serde_json::Value) -> (r: Option<&str>)
    ensures
        match held(*value) {
            Json::Text(text) => r matches Some(s) && s@ == text,
            _ => r is None,
        },
{
    value.as_str()
}

/// `serde_json::Value::String`: the JSON string with that text.
#[verifier::external_body]
pub(crate) fn string(text: &str) -> (r: serde_json::Value)
    ensures
        held(r) == Json::Text(text@),
{
    serde_json::Value::String(text.to_string())
}

/// `serde_json::Value::Array`: the JSON array of those items.
#[verifier::external_body]
pub(crate) fn array(items: Vec<serde_json::Value>) -> (r: serde_json::Value)
    ensures
        held(r) == Json::Array(items@.map_values(|v: serde_json::Value| held(v))),
{
    serde_json::Value::Array(items)
}

/// `serde_json::Map::new`: the JSON object without members.
#[verifier::external_body]
pub(crate) fn empty_object() -> (r: serde_json::Value)
    ensures
        held(r) == Json::Object(Map::<Seq<char>, Json>::empty()),
{
    serde_json::Value::Object(serde_json::Map::new())
}

/// `value[key] = member` of `serde_json`, on an object: sets the member under
/// `key` and leaves the others.
#[verifier::external_body]
pub(crate) fn set_member(object: &mut serde_json::Value, key: &str, value: serde_json::Value)
    requires
        held(*old(object)) is Object,
    ensures
        held(*final(object)) == Json::Object(
            held(*old(object))->Object_0.insert(key@, held(value)),
        ),
{
    object[key] = value;
}

} // verus!

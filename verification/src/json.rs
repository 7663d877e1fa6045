//! JSON values of `serde_json`, described by [`JsonV`].
use vstd::prelude::*;

verus! {

/// A JSON value.
pub enum JsonV {
    Null,
    Bool(bool),
    /// A number, by the text that `serde_json` writes for it.
    Num(Seq<char>),
    Str(Seq<char>),
    Arr(Seq<JsonV>),
    Obj(Map<Seq<char>, JsonV>),
}

#[verifier::external_type_specification]
#[verifier::external_body]
pub struct ExJsonValue(serde_json::Value);

#[verifier::external_type_specification]
#[verifier::external_body]
#[verifier::reject_recursive_types(K)]
#[verifier::reject_recursive_types(V)]
pub struct ExJsonMap<K, V>(serde_json::Map<K, V>);

/// The value that a `serde_json::Value` holds.
pub uninterp spec fn json_value(v: serde_json::Value) -> JsonV;

/// The entries that a `serde_json::Map` holds.
pub uninterp spec fn json_entries(m: serde_json::Map<String, serde_json::Value>) -> Map<
    Seq<char>,
    JsonV,
>;

/// What `serde_json::from_str::<serde_json::Value>` reads from a text; `None`
/// when the text is no JSON.
pub uninterp spec fn parse_json(s: Seq<char>) -> Option<JsonV>;

/// `Clone::clone` of `serde_json::Value`, which `serde_json` derives: the copy
/// holds the same value.
pub assume_specification[<serde_json::Value as Clone>::clone](v: &serde_json::Value) -> (r:
    serde_json::Value)
    ensures
        json_value(r) == json_value(*v),
;

/// The values that a list of `serde_json::Value` holds.
pub open spec fn json_values(v: Seq<serde_json::Value>) -> Seq<JsonV> {
    v.map_values(|x: serde_json::Value| json_value(x))
}

/// `serde_json::Value::String`.
#[verifier::external_body]
pub(crate) fn json_string(s: &str) -> (r: serde_json::Value)
    ensures
        json_value(r) == JsonV::Str(s@),
{
    serde_json::Value::String(s.to_string())
}

/// `serde_json::Value::Array`.
#[verifier::external_body]
pub(crate) fn json_array(items: Vec<serde_json::Value>) -> (r: serde_json::Value)
    ensures
        json_value(r) == JsonV::Arr(json_values(items@)),
{
    serde_json::Value::Array(items)
}

/// The entries of an empty object.
pub open spec fn no_entries() -> Map<Seq<char>, JsonV> {
    Map::empty()
}

/// `serde_json::Map::new`: no entries.
#[verifier::external_body]
pub(crate) fn json_map_new() -> (r: serde_json::Map<String, serde_json::Value>)
    ensures
        json_entries(r) == no_entries(),
{
    serde_json::Map::new()
}

/// `serde_json::Map::insert`: the key now maps to the value, whatever it
/// mapped to before.
#[verifier::external_body]
pub(crate) fn json_map_insert(
    m: &mut serde_json::Map<String, serde_json::Value>,
    key: &str,
    value: serde_json::Value,
)
    ensures
        json_entries(*final(m)) == json_entries(*old(m)).insert(key@, json_value(value)),
{
    m.insert(key.to_string(), value);
}

/// `serde_json::Value::Object`.
#[verifier::external_body]
pub(crate) fn json_object(m: serde_json::Map<String, serde_json::Value>) -> (r: serde_json::Value)
    ensures
        json_value(r) == JsonV::Obj(json_entries(m)),
{
    serde_json::Value::Object(m)
}

/// `serde_json::from_str::<serde_json::Value>`: the value that a text holds,
/// `None` when it is no JSON.
#[verifier::external_body]
pub(crate) fn parse_json_value(s: &str) -> (r: Option<serde_json::Value>)
    ensures
        r is Some <==> parse_json(s@) is Some,
        r matches Some(v) ==> parse_json(s@) == Some(json_value(v)),
{
    match serde_json::from_str::<serde_json::Value>(s) {
        Ok(v) => Some(v),
        Err(_) => None,
    }
}

} // verus!

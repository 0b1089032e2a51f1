//! JSON values.
//!
//! JSON is read and written by `serde_json`.  Verus does not look into a
//! `serde_json::Value`; what it knows of one is its model, a [`JsonModel`], and
//! the contracts of the functions of this file, which are believed, not proved.
//! Each of them makes one call into `serde_json`.

use vstd::prelude::*;

verus! {

#[verifier::external_type_specification]
#[verifier::external_body]
pub struct ExValue(serde_json::Value);

#[verifier::external_type_specification]
#[verifier::external_body]
#[verifier::reject_recursive_types(K)]
#[verifier::reject_recursive_types(V)]
pub struct ExMap<K, V>(serde_json::Map<K, V>);

/// The map that holds the members of a JSON object.
pub type JsonMap = serde_json::Map<String, serde_json::Value>;

/// What a JSON number is in contracts: an integer, or any other number, which
/// is kept as the text that stands for it in a document.
pub enum NumberModel {
    Integer(int),
    Other(Seq<char>),
}

/// What a JSON value is in contracts.
pub enum JsonModel {
    Null,
    Bool(bool),
    Number(NumberModel),
    Text(Seq<char>),
    Array(Seq<JsonModel>),
    Object(Map<Seq<char>, JsonModel>),
}

/// The model of a `serde_json::Value`.
pub uninterp spec fn json_model(v: serde_json::Value) -> JsonModel;

/// The members that a `serde_json::Map` holds, by their keys.
pub uninterp spec fn members(m: JsonMap) -> Map<Seq<char>, JsonModel>;

/// The compact JSON text that `serde_json` prints for a value.
pub uninterp spec fn json_text(m: JsonModel) -> Seq<char>;

/// The value that `serde_json` reads from a text, where it is one JSON
/// document.
pub uninterp spec fn json_parsed(text: Seq<char>) -> Option<JsonModel>;

/// The models of a sequence of values.
pub open spec fn json_models(items: Seq<serde_json::Value>) -> Seq<JsonModel> {
    items.map_values(|v: serde_json::Value| json_model(v))
}

/// `serde_json::Value::Null`.
#[verifier::external_body]
pub(crate) fn null() -> (r: serde_json::Value)
    ensures
        json_model(r) == JsonModel::Null,
{
    serde_json::Value::Null
}

/// `serde_json::Value::Bool`.
#[verifier::external_body]
pub(crate) fn boolean(b: bool) -> (r: serde_json::Value)
    ensures
        json_model(r) == JsonModel::Bool(b),
{
    serde_json::Value::Bool(b)
}

/// `serde_json::Value::from` on an `i64`: the number with that value.
#[verifier::external_body]
pub(crate) fn integer(i: i64) -> (r: serde_json::Value)
    ensures
        json_model(r) == JsonModel::Number(NumberModel::Integer(i as int)),
{
    serde_json::Value::from(i)
}

/// `serde_json::Value::String`, on a copy of `s`.
#[verifier::external_body]
pub(crate) fn text(s: &str) -> (r: serde_json::Value)
    ensures
        json_model(r) == JsonModel::Text(s@),
{
    serde_json::Value::String(s.to_owned())
}

/// `serde_json::Value::Array`: the array of `items`, in their order.
#[verifier::external_body]
pub(crate) fn array(items: Vec<serde_json::Value>) -> (r: serde_json::Value)
    ensures
        json_model(r) == JsonModel::Array(json_models(items@)),
{
    serde_json::Value::Array(items)
}

/// `serde_json::Value::Object`: the object with the members of `m`.
#[verifier::external_body]
pub(crate) fn object(m: JsonMap) -> (r: serde_json::Value)
    ensures
        json_model(r) == JsonModel::Object(members(m)),
{
    serde_json::Value::Object(m)
}

/// `serde_json::Map::new`: a map without members.
#[verifier::external_body]
pub(crate) fn map_new() -> (r: JsonMap)
    ensures
        members(r) == (Map::<Seq<char>, JsonModel>::empty()),
{
    serde_json::Map::new()
}

/// `serde_json::Map::insert`: the member `key` is `v` afterwards, whether or
/// not the map had such a member; the other members stay.
#[verifier::external_body]
pub(crate) fn map_insert(m: &mut JsonMap, key: &str, v: serde_json::Value)
    ensures
        members(*final(m)) == members(*old(m)).insert(key@, json_model(v)),
{
    m.insert(key.to_owned(), v);
}

/// `serde_json::Value::to_string`: the compact text of the value.
#[verifier::external_body]
pub(crate) fn render(v: &serde_json::Value) -> (r: String)
    ensures
        r@ == json_text(json_model(*v)),
{
    v.to_string()
}

/// `serde_json::from_str`: the value that the text holds, or `None` where the
/// text is not one JSON document.
#[verifier::external_body]
pub(crate) fn parse(s: &str) -> (r: Option<serde_json::Value>)
    ensures
        match r {
            Some(v) => json_parsed(s@) == Some(json_model(v)),
            None => json_parsed(s@) is None,
        },
{
    serde_json::from_str(s).ok()
}

/// What `lookup` finds in a value under a key: the member of that name where
/// the value is an object that has one.
pub open spec fn member_of(m: JsonModel, key: Seq<char>) -> Option<JsonModel> {
    match m {
        JsonModel::Object(o) => if o.contains_key(key) {
            Some(o[key])
        } else {
            None
        },
        _ => None,
    }
}

/// `serde_json::Value::get` with a string: the member `key` of an object, and
/// `None` where the value is no object or has no such member.
#[verifier::external_body]
pub(crate) fn lookup<'a>(v: &'a serde_json::Value, key: &str) -> (r: Option<&'a serde_json::Value>)
    ensures
        match r {
            Some(x) => member_of(json_model(*v), key@) == Some(json_model(*x)),
            None => member_of(json_model(*v), key@) is None,
        },
{
    v.get(key)
}

/// `serde_json::Value::as_str`: the characters of a string, and `None` for any
/// other value.
#[verifier::external_body]
pub(crate) fn as_text<'a>(v: &'a serde_json::Value) -> (r: Option<&'a str>)
    ensures
        match r {
            Some(s) => json_model(*v) == JsonModel::Text(s@),
            None => !(json_model(*v) is Text),
        },
{
    v.as_str()
}

/// What `as_integer` gives for a value: the integer, where the value is a
/// number that is an integer within the range of `i64`.
pub open spec fn integer_of(m: JsonModel) -> Option<i64> {
    match m {
        JsonModel::Number(NumberModel::Integer(i)) => if i64::MIN <= i <= i64::MAX {
            Some(i as i64)
        } else {
            None
        },
        _ => None,
    }
}

/// `serde_json::Value::as_i64`.
#[verifier::external_body]
pub(crate) fn as_integer(v: &serde_json::Value) -> (r: Option<i64>)
    ensures
        r == integer_of(json_model(*v)),
{
    v.as_i64()
}

/// `serde_json::Value::as_array`: the elements of an array, and `None` for any
/// other value.
#[verifier::external_body]
pub(crate) fn as_items<'a>(v: &'a serde_json::Value) -> (r: Option<&'a Vec<serde_json::Value>>)
    ensures
        match r {
            Some(items) => json_model(*v) == JsonModel::Array(json_models(items@)),
            None => !(json_model(*v) is Array),
        },
{
    v.as_array()
}

/// `serde_json::Value::is_null`.
#[verifier::external_body]
pub(crate) fn is_null(v: &serde_json::Value) -> (r: bool)
    ensures
        r == (json_model(*v) is Null),
{
    v.is_null()
}

} // verus!

use vstd::prelude::*;

verus! {

#[verifier::external_type_specification]
#[verifier::external_body]
pub struct ExJsonValue(serde_json::Value);

#[verifier::external_type_specification]
#[verifier::external_body]
#[verifier::reject_recursive_types(K)]
#[verifier::reject_recursive_types(V)]
pub struct ExJsonMap<K, V>(serde_json::Map<K, V>);

#[verifier::external_type_specification]
#[verifier::external_body]
pub struct ExJsonError(serde_json::Error);

/// A JSON object: string keys mapped to JSON values.
pub type JsonObject = serde_json::Map<String, serde_json::Value>;

/// The entries that a JSON object holds, one value per key.
pub uninterp spec fn object_entries(m: serde_json::Map<String, serde_json::Value>) -> Map<
    Seq<char>,
    serde_json::Value,
>;

/// The object that a JSON text denotes, if it is a well-formed JSON object.
pub uninterp spec fn parsed_object(text: Seq<char>) -> Option<Map<Seq<char>, serde_json::Value>>;

/// The JSON value that a text denotes, if it is well-formed JSON.
pub uninterp spec fn parsed_value(text: Seq<char>) -> Option<serde_json::Value>;

/// Relies on serde_json::from_str into a value: it succeeds exactly on
/// well-formed JSON texts, and returns the value they denote.
#[verifier::external_body]
pub(crate) fn parse_value(text: &str) -> (r: Result<serde_json::Value, serde_json::Error>)
    ensures
        r is Ok <==> parsed_value(text@) is Some,
        r is Ok ==> r->Ok_0 == parsed_value(text@)->Some_0,
{
    serde_json::from_str::<serde_json::Value>(text)
}

/// Relies on serde_json::Map::new: a map with no entries.
#[verifier::external_body]
pub(crate) fn new_object() -> (r: JsonObject)
    ensures
        object_entries(r).dom() == Set::<Seq<char>>::empty(),
{
    serde_json::Map::new()
}

/// Relies on serde_json::Map::insert: the key now maps to the value, any
/// earlier value under it is replaced, other entries stay.
#[verifier::external_body]
pub(crate) fn object_insert(m: &mut JsonObject, k: String, v: serde_json::Value)
    ensures
        object_entries(*final(m)) == object_entries(*old(m)).insert(k@, v),
{
    m.insert(k, v);
}

/// Relies on serde_json::from_str into a map: it succeeds exactly on the texts
/// that denote a JSON object, whose entries it returns.
#[verifier::external_body]
pub(crate) fn parse_object(text: &str) -> (r: Result<JsonObject, serde_json::Error>)
    ensures
        r is Ok <==> parsed_object(text@) is Some,
        r is Ok ==> object_entries(r->Ok_0) == parsed_object(text@)->Some_0,
{
    serde_json::from_str::<JsonObject>(text)
}

/// What a JSON value holds: the entries of an object, the items of an array,
/// the characters of a string, or whether it is `null`. A value is at most one
/// of these.
pub uninterp spec fn value_object(v: serde_json::Value) -> Option<Map<Seq<char>, serde_json::Value>>;

pub uninterp spec fn value_array(v: serde_json::Value) -> Option<Seq<serde_json::Value>>;

pub uninterp spec fn value_text(v: serde_json::Value) -> Option<Seq<char>>;

pub uninterp spec fn value_is_null(v: serde_json::Value) -> bool;

/// Relies on serde_json::Value::Null.
#[verifier::external_body]
pub(crate) fn null_value() -> (r: serde_json::Value)
    ensures
        value_is_null(r),
        value_object(r) is None,
        value_array(r) is None,
        value_text(r) is None,
{
    serde_json::Value::Null
}

/// Relies on serde_json::Value::Object: an object value with the map's entries.
#[verifier::external_body]
pub(crate) fn object_value(m: JsonObject) -> (r: serde_json::Value)
    ensures
        value_object(r) == Some(object_entries(m)),
        !value_is_null(r),
        value_array(r) is None,
        value_text(r) is None,
{
    serde_json::Value::Object(m)
}

/// Relies on serde_json::Value::Array: an array value with the given items.
#[verifier::external_body]
pub(crate) fn array_value(items: Vec<serde_json::Value>) -> (r: serde_json::Value)
    ensures
        value_array(r) == Some(items@),
        !value_is_null(r),
        value_object(r) is None,
        value_text(r) is None,
{
    serde_json::Value::Array(items)
}

/// Relies on serde_json::Value::is_null.
#[verifier::external_body]
pub(crate) fn is_null(v: &serde_json::Value) -> (r: bool)
    ensures
        r == value_is_null(*v),
{
    v.is_null()
}

/// Relies on the serde_json::Value::Object variant: its map, if the value is one.
#[verifier::external_body]
pub(crate) fn into_object(v: serde_json::Value) -> (r: Option<JsonObject>)
    ensures
        r is Some <==> value_object(v) is Some,
        r is Some ==> value_object(v) == Some(object_entries(r->Some_0)),
{
    match v {
        serde_json::Value::Object(m) => Some(m),
        _ => None,
    }
}

/// Relies on the serde_json::Value::Array variant: its items, if the value is one.
#[verifier::external_body]
pub(crate) fn into_array(v: serde_json::Value) -> (r: Option<Vec<serde_json::Value>>)
    ensures
        r is Some <==> value_array(v) is Some,
        r is Some ==> value_array(v) == Some(r->Some_0@),
{
    match v {
        serde_json::Value::Array(items) => Some(items),
        _ => None,
    }
}

/// Relies on the serde_json::Value::String variant: its text, if the value is one.
#[verifier::external_body]
pub(crate) fn into_text(v: serde_json::Value) -> (r: Option<String>)
    ensures
        r is Some <==> value_text(v) is Some,
        r is Some ==> value_text(v) == Some(r->Some_0@),
{
    match v {
        serde_json::Value::String(t) => Some(t),
        _ => None,
    }
}

/// Relies on serde_json::Map::remove: the value under the key, if any, which
/// leaves the map.
#[verifier::external_body]
pub(crate) fn object_remove(m: &mut JsonObject, k: &str) -> (r: Option<serde_json::Value>)
    ensures
        object_entries(*old(m)).contains_key(k@) ==> r == Some(object_entries(*old(m))[k@]),
        !object_entries(*old(m)).contains_key(k@) ==> r is None,
        object_entries(*final(m)) == object_entries(*old(m)).remove(k@),
{
    m.remove(k)
}

/// Relies on serde_json::Map::is_empty: true exactly when there are no entries.
#[verifier::external_body]
pub(crate) fn object_is_empty(m: &JsonObject) -> (r: bool)
    ensures
        r == (object_entries(*m).dom() == Set::<Seq<char>>::empty()),
{
    m.is_empty()
}

} // verus!

//! Trusted interface to JSON documents, through serde_json.
//!
//! A JSON document is held as an opaque `serde_json::Value`. Its contents are
//! described by the ghost model [`JsonData`], which records exactly the shapes
//! this library reads or writes — strings, arrays of strings, objects, null —
//! and carries every other value through as an `Opaque` leaf. The names
//! [`json_model`] (the model of a held value) and [`json_of_text`] (the parse
//! of a text) tie the trusted wrappers below together.

use vstd::prelude::*;

verus! {

#[verifier::external_type_specification]
#[verifier::external_body]
pub struct ExValue(serde_json::Value);

/// Ghost model of a JSON value, as far as this library reads or writes it.
/// Values the library never inspects are carried as `Opaque` leaves.
#[verifier::ext_equal]
pub enum JsonData {
    Null,
    Str(Seq<char>),
    StrArr(Seq<Seq<char>>),
    Obj(Map<Seq<char>, JsonData>),
    Opaque(serde_json::Value),
}

/// The entries of an object model; the empty map for any other model.
pub open spec fn obj_map_of(d: JsonData) -> Map<Seq<char>, JsonData> {
    match d {
        JsonData::Obj(m) => m,
        _ => Map::empty(),
    }
}

/// The model of a held `serde_json::Value`.
pub uninterp spec fn json_model(v: serde_json::Value) -> JsonData;

/// What parsing a text as JSON gives: `None` where the text is not valid JSON.
pub uninterp spec fn json_of_text(s: Seq<char>) -> Option<JsonData>;

/// Relies on serde_json::from_str::<Value>: whether a text is valid JSON, and
/// what it parses to, depend on the text alone.
#[verifier::external_body]
pub(crate) fn json_parse(s: &str) -> (r: Option<serde_json::Value>)
    ensures
        r matches Some(v) ==> json_of_text(s@) == Some(json_model(v)),
        r is None ==> json_of_text(s@) is None,
{
    serde_json::from_str(s).ok()
}

/// Relies on serde_json::to_string_pretty: serializing a `Value` (whose keys
/// are always strings) cannot fail, and parsing the output back gives an
/// equal value.
///
/// The round-trip clause takes two bounds of serde_json on trust, because
/// the model cannot see inside its `Opaque` leaves: the parser's nesting
/// limit (it accepts at most 128 levels, so a value nested deeper would
/// serialize but not re-parse — no document this crate serializes is deeper
/// than the one it parsed plus the fixed few levels of a launch descriptor),
/// and exact number round-tripping (without the float_roundtrip feature a
/// re-read number can sit one unit in the last place away, so an `Opaque`
/// number leaf is equal only up to that drift — this crate never reads or
/// compares numbers).
#[verifier::external_body]
pub(crate) fn json_to_string(v: &serde_json::Value) -> (r: String)
    ensures
        json_of_text(r@) == Some(json_model(*v)),
{
    serde_json::to_string_pretty(v).expect("serializing a JSON value cannot fail")
}

/// Relies on serde_json::Map::new: a `Value::Object` over it is the empty object.
#[verifier::external_body]
pub(crate) fn json_new_object() -> (r: serde_json::Value)
    ensures
        json_model(r) == JsonData::Obj(Map::<Seq<char>, JsonData>::empty()),
{
    serde_json::Value::Object(serde_json::Map::new())
}

/// Relies on serde_json::Value::String: a JSON string value with exactly the
/// given contents.
#[verifier::external_body]
pub(crate) fn json_string(s: &str) -> (r: serde_json::Value)
    ensures
        json_model(r) == JsonData::Str(s@),
{
    serde_json::Value::String(s.to_string())
}

/// Relies on serde_json::Value::Array over Value::String items: an array
/// holding exactly the given strings, in order.
#[verifier::external_body]
pub(crate) fn json_string_array(items: &Vec<String>) -> (r: serde_json::Value)
    ensures
        json_model(r) == JsonData::StrArr(items.deep_view()),
{
    serde_json::Value::Array(items.iter().map(|s| serde_json::Value::String(s.clone())).collect())
}

/// Relies on serde_json::Value::is_object.
#[verifier::external_body]
pub(crate) fn json_is_object(v: &serde_json::Value) -> (r: bool)
    ensures
        r == (json_model(*v) is Obj),
{
    v.is_object()
}

/// Relies on serde_json::Value::is_null.
#[verifier::external_body]
pub(crate) fn json_is_null(v: &serde_json::Value) -> (r: bool)
    ensures
        r == (json_model(*v) is Null),
{
    v.is_null()
}

/// Relies on serde_json::Value::get with a string index: a lookup among an
/// object's entries, `None` on any non-object value.
#[verifier::external_body]
pub(crate) fn json_get<'a>(v: &'a serde_json::Value, key: &str) -> (r: Option<&'a serde_json::Value>)
    ensures
        r is Some <==> (json_model(*v) matches JsonData::Obj(m) && m.contains_key(key@)),
        r matches Some(w) ==> json_model(*w) == obj_map_of(json_model(*v))[key@],
{
    v.get(key)
}

/// Relies on serde_json::Map::insert, reached through Value::as_object_mut:
/// replaces the entry under `key`, keeping every other entry.
#[verifier::external_body]
pub(crate) fn json_insert(v: &mut serde_json::Value, key: &str, val: serde_json::Value)
    requires
        json_model(*old(v)) is Obj,
    ensures
        json_model(*final(v)) == JsonData::Obj(
            obj_map_of(json_model(*old(v))).insert(key@, json_model(val)),
        ),
{
    v.as_object_mut().unwrap().insert(key.to_string(), val);
}

/// Relies on serde_json::Map::remove, reached through Value::as_object_mut:
/// removes and hands back the entry under `key`, keeping every other entry.
#[verifier::external_body]
pub(crate) fn json_take(v: &mut serde_json::Value, key: &str) -> (r: Option<serde_json::Value>)
    requires
        json_model(*old(v)) is Obj,
    ensures
        json_model(*final(v)) == JsonData::Obj(
            obj_map_of(json_model(*old(v))).remove(key@),
        ),
        r is Some <==> obj_map_of(json_model(*old(v))).contains_key(key@),
        r matches Some(w) ==> json_model(w) == obj_map_of(json_model(*old(v)))[key@],
{
    v.as_object_mut().unwrap().remove(key)
}

/// Relies on serde_json::Value::as_str: the contents of a string value,
/// `None` on any other value.
#[verifier::external_body]
pub(crate) fn json_as_str<'a>(v: &'a serde_json::Value) -> (r: Option<&'a str>)
    ensures
        r is Some <==> json_model(*v) is Str,
        r matches Some(s) ==> json_model(*v) == JsonData::Str(s@),
{
    v.as_str()
}

} // verus!

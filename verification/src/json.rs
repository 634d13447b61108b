//! What this crate takes on trust from `serde_json`.
//!
//! Message bodies are JSON values that this crate carries but never looks
//! into, and frames are JSON objects of which it reads a handful of members.
//! A `serde_json::Value` is opaque to Verus. [`json_model`] names what one
//! holds, as a [`Json`] tree, and each `serde_json` function used here gets a
//! contract over that model. None of these contracts is proved: they restate
//! what the source of `serde_json` shows.

use serde_json::{Map as JsonMap, Number, Value};
use vstd::prelude::*;

verus! {

/// `serde_json::Value`, a JSON value. Nothing inside it is visible here.
#[verifier::external_type_specification]
#[verifier::external_body]
pub struct ExValue(Value);

/// `serde_json::Number`, a JSON number. Nothing inside it is visible here.
#[verifier::external_type_specification]
#[verifier::external_body]
pub struct ExNumber(Number);

/// `serde_json::Map`, the members of a JSON object. Nothing inside it is
/// visible here.
#[verifier::external_type_specification]
#[verifier::external_body]
#[verifier::reject_recursive_types(K)]
#[verifier::reject_recursive_types(V)]
pub struct ExJsonMap<K, V>(JsonMap<K, V>);

/// `serde_json::Error`, why a text is no JSON. It is only ever passed on.
#[verifier::external_type_specification]
#[verifier::external_body]
pub struct ExJsonError(serde_json::Error);

/// A JSON document as a mathematical tree, variant for variant what a
/// `serde_json::Value` is. Numbers are kept as they are; the members of an
/// object form a map, since an object holds one value per key.
pub enum Json {
    Null,
    Bool(bool),
    Number(Number),
    Text(Seq<char>),
    Array(Seq<Json>),
    Object(Map<Seq<char>, Json>),
}

/// The map type that `serde_json` keeps the members of an object in.
pub type Members = JsonMap<String, Value>;

/// The document that a `serde_json::Value` holds.
pub uninterp spec fn json_model(v: Value) -> Json;

/// The members that a `serde_json::Map` holds.
pub uninterp spec fn json_members(m: Members) -> Map<Seq<char>, Json>;

/// What `Number::as_i64` returns: the number itself where it is an integer
/// that fits `i64`.
pub uninterp spec fn number_i64(n: Number) -> Option<i64>;

/// What `serde_json::from_slice` makes of `bytes`: the document they spell, or
/// nothing where they are not one JSON text.
pub uninterp spec fn json_parse(bytes: Seq<u8>) -> Option<Json>;

/// What `Display` writes for a value: its compact JSON text, as UTF-8.
pub uninterp spec fn json_text(doc: Json) -> Seq<u8>;

/// The members of an object that has none.
pub open spec fn no_members() -> Map<Seq<char>, Json> {
    Map::empty()
}

/// The member `key` of the object `doc`; nothing if `doc` is no object or
/// has no such member.
pub open spec fn member_of(doc: Json, key: Seq<char>) -> Option<Json> {
    match doc {
        Json::Object(members) => if members.contains_key(key) {
            Some(members[key])
        } else {
            None
        },
        _ => None,
    }
}

/// The text of `doc`, if it is a JSON string.
pub open spec fn text_of(doc: Json) -> Option<Seq<char>> {
    match doc {
        Json::Text(s) => Some(s),
        _ => None,
    }
}

/// The integer that `doc` is, if it is a JSON number with an `i64` value.
pub open spec fn integer_of(doc: Json) -> Option<i64> {
    match doc {
        Json::Number(n) => number_i64(n),
        _ => None,
    }
}

/// The truth value that `doc` is, if it is a JSON boolean.
pub open spec fn bool_of(doc: Json) -> Option<bool> {
    match doc {
        Json::Bool(b) => Some(b),
        _ => None,
    }
}

/// `serde_json::from_slice::<Value>`: succeeds exactly on the inputs that
/// spell a document, and returns that document.
#[verifier::external_body]
pub(crate) fn parse(bytes: &[u8]) -> (r: Result<Value, serde_json::Error>)
    ensures
        match r {
            Ok(v) => json_parse(bytes@) == Some(json_model(v)),
            Err(_) => json_parse(bytes@) is None,
        },
{
    serde_json::from_slice::<Value>(bytes)
}

/// `ToString::to_string` of a `Value`, which goes through its `Display`: the
/// compact text of the document. Writing into a `String` cannot fail.
#[verifier::external_body]
pub(crate) fn to_text(v: &Value) -> (text: Vec<u8>)
    ensures
        text@ == json_text(json_model(*v)),
{
    v.to_string().into_bytes()
}

/// `Value::get` with a string key: the member of that name where the value
/// is an object that has one.
#[verifier::external_body]
pub(crate) fn member<'a>(v: &'a Value, key: &str) -> (r: Option<&'a Value>)
    ensures
        match r {
            Some(found) => member_of(json_model(*v), key@) == Some(json_model(*found)),
            None => member_of(json_model(*v), key@) is None,
        },
{
    v.get(key)
}

/// `Value::as_str`: the text where the value is a string.
pub assume_specification<'a>[ Value::as_str ](v: &'a Value) -> (r: Option<&'a str>)
    ensures
        match r {
            Some(s) => text_of(json_model(*v)) == Some(s@),
            None => text_of(json_model(*v)) is None,
        },
;

/// `Value::as_i64`: for a number, what `Number::as_i64` says of it.
pub assume_specification[ Value::as_i64 ](v: &Value) -> (r: Option<i64>)
    ensures
        r == match json_model(*v) {
            Json::Number(n) => number_i64(n),
            _ => None,
        },
;

/// `Value::as_bool`: the truth value where the value is a boolean.
pub assume_specification[ Value::as_bool ](v: &Value) -> (r: Option<bool>)
    ensures
        r == bool_of(json_model(*v)),
;

/// `Value::is_null`: whether the value is `null`.
pub assume_specification[ Value::is_null ](v: &Value) -> (r: bool)
    ensures
        r == (json_model(*v) is Null),
;

/// `Clone::clone` of a `Value`: a value that holds the same document.
pub assume_specification[ <Value as Clone>::clone ](v: &Value) -> (copy: Value)
    ensures
        json_model(copy) == json_model(*v),
;

/// `Value::from(&str)`: the JSON string with that text.
#[verifier::external_body]
pub(crate) fn text_value(s: &str) -> (v: Value)
    ensures
        json_model(v) == Json::Text(s@),
{
    Value::from(s)
}

/// `Value::from(Map)`: the JSON object with those members.
#[verifier::external_body]
pub(crate) fn object_value(members: Members) -> (v: Value)
    ensures
        json_model(v) == Json::Object(json_members(members)),
{
    Value::from(members)
}

/// `Map::new`: a map without members.
#[verifier::external_body]
pub(crate) fn new_members() -> (made: Members)
    ensures
        json_members(made) == no_members(),
{
    JsonMap::new()
}

/// `Map::insert`: the member `key` now holds `value`, whether or not it was
/// there before; the other members stay.
#[verifier::external_body]
pub(crate) fn set_member(m: &mut Members, key: &str, value: Value)
    ensures
        json_members(*final(m)) == json_members(*old(m)).insert(key@, json_model(value)),
{
    m.insert(key.to_owned(), value);
}

} // verus!

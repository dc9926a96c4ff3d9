//! JSON objects: the bodies of the replies, held in `serde_json::Map`.

use vstd::prelude::*;

verus! {

/// `serde_json::Map`, opaque here.
#[verifier::external_type_specification]
#[verifier::external_body]
#[verifier::reject_recursive_types(K)]
#[verifier::reject_recursive_types(V)]
pub struct ExJsonMap<K, V>(serde_json::Map<K, V>);

/// `serde_json::Value`, opaque here.
#[verifier::external_type_specification]
#[verifier::external_body]
pub struct ExJsonValue(serde_json::Value);

/// A JSON object.
pub type JsonObject = serde_json::Map<String, serde_json::Value>;

/// A member of a JSON object, as the contracts see it.
pub enum Scalar {
    /// `true` or `false`.
    Flag(bool),
    /// A string.
    Text(Seq<char>),
    /// An integral number.
    Integer(int),
    /// Anything else: null, a fractional number, an array or an object.
    Other,
}

/// The members of a JSON object, by name.
pub uninterp spec fn object_members(object: JsonObject) -> Map<Seq<char>, Scalar>;

/// No members at all.
pub open spec fn no_members() -> Map<Seq<char>, Scalar> {
    Map::empty()
}

/// Calls `serde_json::Map::new`, which makes an object without members.
#[verifier::external_body]
pub(crate) fn new_object() -> (object: JsonObject)
    ensures
        object_members(object) == no_members(),
{
    serde_json::Map::new()
}

/// Calls `serde_json::Map::insert` with the value that `Value::from` makes of a
/// `bool`: the member of that name is then that flag, whether or not there was
/// one before, and no other member changes.
#[verifier::external_body]
pub(crate) fn insert_flag(object: &mut JsonObject, name: &str, value: bool)
    ensures
        object_members(*final(object)) == object_members(*old(object)).insert(
            name@,
            Scalar::Flag(value),
        ),
{
    object.insert(name.to_string(), serde_json::Value::from(value));
}

/// Calls `serde_json::Map::insert` with the value that `Value::from` makes of a
/// `&str`: the member of that name is then that text, whether or not there was
/// one before, and no other member changes.
#[verifier::external_body]
pub(crate) fn insert_text(object: &mut JsonObject, name: &str, value: &str)
    ensures
        object_members(*final(object)) == object_members(*old(object)).insert(
            name@,
            Scalar::Text(value@),
        ),
{
    object.insert(name.to_string(), serde_json::Value::from(value));
}

/// Calls `serde_json::Map::insert` with the value that `Value::from` makes of an
/// `i64`: the member of that name is then that integer, whether or not there was
/// one before, and no other member changes.
#[verifier::external_body]
pub(crate) fn insert_integer(object: &mut JsonObject, name: &str, value: i64)
    ensures
        object_members(*final(object)) == object_members(*old(object)).insert(
            name@,
            Scalar::Integer(value as int),
        ),
{
    object.insert(name.to_string(), serde_json::Value::from(value));
}

} // verus!

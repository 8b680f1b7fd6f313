//! JSON documents, as `serde_json` holds them.

use serde_json::Value;
use vstd::prelude::*;

verus! {

/// A JSON document.
#[verifier::external_type_specification]
#[verifier::external_body]
pub struct ExValue(serde_json::Value);

/// The members of a JSON object while it is being filled.
#[verifier::external_type_specification]
#[verifier::external_body]
#[verifier::reject_recursive_types(K)]
#[verifier::reject_recursive_types(V)]
pub struct ExObject<K, V>(serde_json::Map<K, V>);

/// What a member of a JSON object holds, as far as this crate reads and writes
/// it.
pub enum Member {
    /// The null value.
    Null,
    /// A string.
    Text(Seq<char>),
    /// A number that is a whole one from 0 to `u64::MAX`, written as one.
    Unsigned(u64),
    /// Anything else.
    Other,
}

/// The members of `object`, by name.
pub uninterp spec fn object_members(object: serde_json::Map<String, Value>) -> Map<Seq<char>, Member>;

/// The members of `document`, by name; none if it is not an object.
pub uninterp spec fn members(document: Value) -> Map<Seq<char>, Member>;

/// An object without members has none.
pub open spec fn no_members() -> Map<Seq<char>, Member> {
    Map::empty()
}

/// `serde_json::Map::new`: an object without members.
#[verifier::external_body]
pub(crate) fn new_object() -> (result: serde_json::Map<String, Value>)
    ensures
        object_members(result) == no_members(),
{
    serde_json::Map::new()
}

/// `serde_json::Map::insert` of the number that `Value::from` makes of a `u64`:
/// the member `name` then holds that number, whatever it held before, and the
/// other members stay.
#[verifier::external_body]
pub(crate) fn put_unsigned(object: &mut serde_json::Map<String, Value>, name: &str, number: u64)
    ensures
        object_members(*final(object)) == object_members(*old(object)).insert(
            name@,
            Member::Unsigned(number),
        ),
{
    object.insert(name.to_string(), Value::from(number));
}

/// `serde_json::Map::insert` of the value that `Value::from` makes of an
/// optional string: the member `name` then holds that string, or null where
/// there is none, whatever it held before, and the other members stay.
#[verifier::external_body]
pub(crate) fn put_text(
    object: &mut serde_json::Map<String, Value>,
    name: &str,
    text: Option<String>,
)
    ensures
        object_members(*final(object)) == object_members(*old(object)).insert(
            name@,
            match text {
                Some(text) => Member::Text(text@),
                None => Member::Null,
            },
        ),
{
    object.insert(name.to_string(), Value::from(text));
}

/// `Value::from` of an object: a document with the same members.
#[verifier::external_body]
pub(crate) fn into_document(object: serde_json::Map<String, Value>) -> (result: Value)
    ensures
        members(result) == object_members(object),
{
    Value::from(object)
}

/// `Value::get` by name, then `Value::as_u64`: the number that the member
/// `name` holds, if the document is an object that has such a member and it
/// holds a whole number from 0 to `u64::MAX`.
#[verifier::external_body]
pub(crate) fn unsigned_member(document: &Value, name: &str) -> (result: Option<u64>)
    ensures
        result == match members(*document).get(name@) {
            Some(Member::Unsigned(number)) => Some(number),
            _ => None,
        },
{
    document.get(name).and_then(Value::as_u64)
}

} // verus!

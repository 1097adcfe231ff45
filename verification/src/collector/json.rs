//! JSON documents, as far as the collectors write and read them: objects
//! whose members are unsigned numbers, strings, null or lists, and lists of
//! such objects.
//!
//! The documents are `serde_json` values, which are opaque here. What the
//! wrappers of this module promise of them is taken from that crate's source
//! and is not proved.

use vstd::prelude::*;

verus! {

/// A JSON value of `serde_json`, carried through without a look inside.
#[verifier::external_type_specification]
#[verifier::external_body]
pub struct ExValue(serde_json::Value);

/// An error of the parser of `serde_json`, carried through without a look inside.
#[verifier::external_type_specification]
#[verifier::external_body]
pub struct ExJsonError(serde_json::Error);

/// What a value is, as far as the collectors tell values apart.
pub enum JsonMember {
    /// The value null.
    Null,
    /// An integer from 0 to `u64::MAX`.
    Unsigned(u64),
    /// A string.
    Text(Seq<char>),
    /// An array, with its items in their order.
    List(Seq<serde_json::Value>),
    /// Anything else: another number, a boolean or an object.
    Other,
}

/// Whether a value is a JSON object.
pub uninterp spec fn json_is_object(doc: serde_json::Value) -> bool;

/// The members of a JSON object, by their keys. A value that is no object
/// has none.
pub uninterp spec fn json_members(doc: serde_json::Value) -> Map<Seq<char>, JsonMember>;

/// What a value is: null, an unsigned integer, a string, an array, or
/// another thing.
pub uninterp spec fn json_kind(value: serde_json::Value) -> JsonMember;

/// What `serde_json::from_slice` makes of a text: `None` where it rejects
/// the text, else the members of the value that it reads.
pub uninterp spec fn json_parse(text: Seq<u8>) -> Option<Map<Seq<char>, JsonMember>>;

/// The members of an object that has none.
pub open spec fn no_members() -> Map<Seq<char>, JsonMember> {
    Map::empty()
}

/// The unsigned integer that a member holds, if it holds one.
pub open spec fn unsigned_of(member: JsonMember) -> Option<u64> {
    match member {
        JsonMember::Unsigned(n) => Some(n),
        _ => None,
    }
}

/// The unsigned integer under `key`: absent where there is no such member,
/// and where the member holds anything else.
pub open spec fn number_at(members: Map<Seq<char>, JsonMember>, key: Seq<char>) -> Option<u64> {
    if members.contains_key(key) {
        unsigned_of(members[key])
    } else {
        None
    }
}

/// What is written for a reading: its number, and null where it is absent,
/// so that an absent reading stays distinct from a reading of zero.
pub open spec fn reading_member(value: Option<u64>) -> JsonMember {
    match value {
        Some(n) => JsonMember::Unsigned(n),
        None => JsonMember::Null,
    }
}

/// Writing a reading under a key decides what is read under that key and
/// leaves what is read under every other key as it was.
pub proof fn written_reading_is_read(
    members: Map<Seq<char>, JsonMember>,
    key: Seq<char>,
    value: Option<u64>,
)
    ensures
        forall|other: Seq<char>| #[trigger]
            number_at(members.insert(key, reading_member(value)), other) == if other == key {
                value
            } else {
                number_at(members, other)
            },
{
}

/// Parses a JSON text with `serde_json::from_slice`. Whether the text is
/// accepted, and what is read from it, depends on the text alone.
#[verifier::external_body]
pub(crate) fn parse_json(text: &[u8]) -> (parsed: Result<serde_json::Value, serde_json::Error>)
    ensures
        match parsed {
            Ok(doc) => json_parse(text@) == Some(json_members(doc)),
            Err(_) => json_parse(text@) is None,
        },
{
    serde_json::from_slice(text)
}

/// Looks up the member `key` with `Value::get`: `None` where `doc` is no
/// object or has no such member, else the member, which is what the members
/// of `doc` say of it.
#[verifier::external_body]
pub(crate) fn get_member<'a>(doc: &'a serde_json::Value, key: &str) -> (member: Option<
    &'a serde_json::Value,
>)
    ensures
        match member {
            Some(value) => json_members(*doc).contains_key(key@) && json_kind(*value)
                == json_members(*doc)[key@],
            None => !json_members(*doc).contains_key(key@),
        },
{
    doc.get(key)
}

/// Reads a value as an unsigned integer with `Value::as_u64`: the integer
/// where the value is one from 0 to `u64::MAX`, and `None` for anything else.
#[verifier::external_body]
pub(crate) fn as_unsigned(value: &serde_json::Value) -> (number: Option<u64>)
    ensures
        number == unsigned_of(json_kind(*value)),
{
    value.as_u64()
}

/// Reads the number under `key`: absent where `doc` is no object, has no
/// such member, or holds under `key` anything but an integer from 0 to
/// `u64::MAX`.
pub fn member_u64(doc: &serde_json::Value, key: &str) -> (value: Option<u64>)
    ensures
        value == number_at(json_members(*doc), key@),
{
    match get_member(doc, key) {
        Some(member) => as_unsigned(member),
        None => None,
    }
}

/// Makes the empty object, `Value::Object` of `Map::new`.
#[verifier::external_body]
pub(crate) fn empty_object() -> (doc: serde_json::Value)
    ensures
        json_is_object(doc),
        json_members(doc) == no_members(),
        json_kind(doc) == JsonMember::Other,
{
    serde_json::Value::Object(serde_json::Map::new())
}

/// Sets the member `key` of an object to the number `value`, by assignment
/// through `IndexMut`: the member is added or replaced, and no other member
/// changes.
#[verifier::external_body]
pub(crate) fn set_number(doc: &mut serde_json::Value, key: &str, value: u64)
    requires
        json_is_object(*old(doc)),
    ensures
        json_is_object(*final(doc)),
        json_members(*final(doc)) == json_members(*old(doc)).insert(key@, JsonMember::Unsigned(value)),
{
    doc[key] = serde_json::Value::from(value);
}

/// Sets the member `key` of an object to null, by assignment through
/// `IndexMut`: the member is added or replaced, and no other member changes.
#[verifier::external_body]
pub(crate) fn set_null(doc: &mut serde_json::Value, key: &str)
    requires
        json_is_object(*old(doc)),
    ensures
        json_is_object(*final(doc)),
        json_members(*final(doc)) == json_members(*old(doc)).insert(key@, JsonMember::Null),
{
    doc[key] = serde_json::Value::Null;
}

/// Sets the member `key` of an object to the string `text`, by assignment
/// through `IndexMut`: the member is added or replaced, and no other member
/// changes.
#[verifier::external_body]
pub(crate) fn set_string(doc: &mut serde_json::Value, key: &str, text: &str)
    requires
        json_is_object(*old(doc)),
    ensures
        json_is_object(*final(doc)),
        json_members(*final(doc)) == json_members(*old(doc)).insert(key@, JsonMember::Text(text@)),
{
    doc[key] = serde_json::Value::from(text);
}

/// Makes the array of `items`, `Value::Array`: it is no object and has no
/// members.
#[verifier::external_body]
pub(crate) fn array_of(items: Vec<serde_json::Value>) -> (doc: serde_json::Value)
    ensures
        json_kind(doc) == JsonMember::List(items@),
        !json_is_object(doc),
        json_members(doc) == no_members(),
{
    serde_json::Value::Array(items)
}

/// Sets the member `key` of an object to `value`, by assignment through
/// `IndexMut`: the member is added or replaced, and no other member changes.
#[verifier::external_body]
pub(crate) fn set_value(doc: &mut serde_json::Value, key: &str, value: serde_json::Value)
    requires
        json_is_object(*old(doc)),
    ensures
        json_is_object(*final(doc)),
        json_members(*final(doc)) == json_members(*old(doc)).insert(key@, json_kind(value)),
{
    doc[key] = value;
}

/// Tells whether an object has no member, by `Map::is_empty` on the map
/// that `Value::as_object` gives for an object.
#[verifier::external_body]
pub(crate) fn has_no_member(doc: &serde_json::Value) -> (empty: bool)
    requires
        json_is_object(*doc),
    ensures
        empty == (json_members(*doc) == no_members()),
{
    doc.as_object().unwrap().is_empty()
}

/// Sets the member `key` of an object to a reading: to its number, and to
/// null where the reading is absent.
pub(crate) fn set_reading(doc: &mut serde_json::Value, key: &str, value: Option<u64>)
    requires
        json_is_object(*old(doc)),
    ensures
        json_is_object(*final(doc)),
        json_members(*final(doc)) == json_members(*old(doc)).insert(key@, reading_member(value)),
{
    match value {
        Some(n) => set_number(doc, key, n),
        None => set_null(doc, key),
    }
}

} // verus!

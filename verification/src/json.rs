//! The boundary to `serde_json`.
//!
//! A payload travels through the protocol as a `serde_json::Value` that the
//! routing layers never open. Handlers look at single members of it, and
//! responses are built from a few text members. This module names what those
//! operations mean and holds the calls into `serde_json`; their contracts are
//! taken on trust from the crate's source.

use vstd::prelude::*;

verus! {

/// `serde_json::Value`, carried through as an opaque value.
#[verifier::external_type_specification]
#[verifier::external_body]
pub struct ExJsonValue(serde_json::Value);

/// The keys of a JSON value: for an object, the keys of all its members, of
/// whatever kind their values are; empty for every other kind of value.
pub uninterp spec fn member_keys(v: serde_json::Value) -> Set<Seq<char>>;

/// The text members of a JSON value: for an object, its keys whose values are
/// JSON strings, each with that string; empty for every other kind of value.
pub uninterp spec fn string_members(v: serde_json::Value) -> Map<Seq<char>, Seq<char>>;

/// The unsigned integer members of a JSON value: for an object, its keys whose
/// values are integers between zero and `u64::MAX`, each with that integer;
/// empty for every other kind of value.
pub uninterp spec fn u64_members(v: serde_json::Value) -> Map<Seq<char>, u64>;

/// What parsing `text` as one JSON value gives: the parsed value in its
/// `Debug` rendering, or the parser's error message.
pub uninterp spec fn parsed_json_debug(text: Seq<char>) -> Result<Seq<char>, Seq<char>>;

/// Whether `v` is the JSON object that holds the text members `texts` and
/// no member besides them.
pub open spec fn is_object_of(v: serde_json::Value, texts: Map<Seq<char>, Seq<char>>) -> bool {
    &&& member_keys(v) == texts.dom()
    &&& string_members(v) == texts
}

/// A textual outcome by the views of its two sides.
pub open spec fn text_outcome(r: Result<String, String>) -> Result<Seq<char>, Seq<char>> {
    match r {
        Ok(shown) => Ok(shown@),
        Err(why) => Err(why@),
    }
}

/// The map that a list of key and text pairs describes, a later pair
/// replacing an earlier one with the same key.
pub open spec fn members_of(fields: Seq<(String, String)>) -> Map<Seq<char>, Seq<char>>
    decreases fields.len(),
{
    if fields.len() == 0 {
        Map::empty()
    } else {
        members_of(fields.drop_last()).insert(fields.last().0@, fields.last().1@)
    }
}

/// `Clone` for `serde_json::Value`, which the crate derives: the copy is the
/// same JSON value.
pub assume_specification[ <serde_json::Value as Clone>::clone ](
    v: &serde_json::Value,
) -> (r: serde_json::Value)
    ensures
        r == *v,
;

/// `Value::get` with a string key followed by `Value::as_str`: the member
/// `key` of an object if it is a JSON string. Trusted: `get` answers `None`
/// unless the value is an object that holds the key, and `as_str` answers
/// `None` unless the member is a string.
#[verifier::external_body]
pub(crate) fn string_member(v: &serde_json::Value, key: &str) -> (r: Option<String>)
    ensures
        r is Some <==> string_members(*v).contains_key(key@),
        r matches Some(s) ==> s@ == string_members(*v)[key@],
{
    v.get(key).and_then(serde_json::Value::as_str).map(str::to_owned)
}

/// `Value::get` with a string key followed by `Value::as_u64`: the member
/// `key` of an object if it is an integer that fits `u64`. Trusted as
/// `string_member` is, with `as_u64` in place of `as_str`.
#[verifier::external_body]
pub(crate) fn u64_member(v: &serde_json::Value, key: &str) -> (r: Option<u64>)
    ensures
        r is Some <==> u64_members(*v).contains_key(key@),
        r matches Some(n) ==> n == u64_members(*v)[key@],
{
    v.get(key).and_then(serde_json::Value::as_u64)
}

/// Builds a JSON object through `serde_json::Map::insert`, one string member
/// per pair, in order. Trusted: `insert` replaces the value of a key that is
/// already present, and the object holds nothing but these members: its keys
/// are the keys of the pairs, and each is a text member.
#[verifier::external_body]
pub(crate) fn object_of_strings(fields: &Vec<(String, String)>) -> (r: serde_json::Value)
    ensures
        member_keys(r) == members_of(fields@).dom(),
        string_members(r) == members_of(fields@),
        u64_members(r).dom() == Set::<Seq<char>>::empty(),
{
    let mut object = serde_json::Map::new();
    for (key, text) in fields.iter() {
        object.insert(key.clone(), serde_json::Value::String(text.clone()));
    }
    serde_json::Value::Object(object)
}

/// `serde_json::from_str` into a `Value`, rendered with `Debug`; on failure
/// the `Display` text of the error. Trusted: the outcome depends on `text`
/// alone.
#[verifier::external_body]
pub(crate) fn parse_json_debug(text: &str) -> (r: Result<String, String>)
    ensures
        text_outcome(r) == parsed_json_debug(text@),
{
    match serde_json::from_str::<serde_json::Value>(text) {
        Ok(value) => Ok(format!("{:?}", value)),
        Err(error) => Err(error.to_string()),
    }
}

} // verus!

//! The boundary to `serde_json`.
//!
//! Everything in this module is believed, not proved: the types are opaque,
//! the spec functions without a body name what `serde_json` computes, and the
//! contracts of the functions say what its source shows. The rest of the
//! crate reads and writes JSON only through these functions.

use vstd::prelude::*;
use crate::text::decimal_text;

verus! {

/// `serde_json::Value`, a parsed or assembled JSON value.
#[verifier::external_type_specification]
#[verifier::external_body]
pub struct ExValue(serde_json::Value);

/// `serde_json::Error`, the reason a text was not accepted as JSON.
#[verifier::external_type_specification]
#[verifier::external_body]
pub struct ExError(serde_json::Error);

/// `serde_json::Map`, the members of a JSON object.
#[verifier::external_type_specification]
#[verifier::external_body]
#[verifier::reject_recursive_types(K)]
#[verifier::reject_recursive_types(V)]
pub struct ExMap<K, V>(serde_json::Map<K, V>);

/// What `serde_json::from_str` makes of `text`, as far as this crate reads
/// it: `None` where the text is rejected, else the members of the top-level
/// object whose values are strings, by key. A document that is not an object
/// has no members.
pub uninterp spec fn document_members(text: Seq<char>) -> Option<Map<Seq<char>, Seq<char>>>;

/// The members of `value` whose values are strings, by key; empty where
/// `value` is not an object.
pub uninterp spec fn value_members(value: serde_json::Value) -> Map<Seq<char>, Seq<char>>;

/// The compact JSON text of `value`, as its `Display` impl writes it.
pub uninterp spec fn value_text(value: serde_json::Value) -> Seq<char>;

/// The members of `object`: for each key the compact JSON text of its value.
pub uninterp spec fn object_members(object: serde_json::Map<String, serde_json::Value>) -> Map<
    Seq<char>,
    Seq<char>,
>;

/// The JSON string literal for `s`: quoted, with the escapes `serde_json`
/// writes.
pub uninterp spec fn string_literal(s: Seq<char>) -> Seq<char>;

/// The compact JSON text of an object with the given member texts.
pub uninterp spec fn object_text(members: Map<Seq<char>, Seq<char>>) -> Seq<char>;

/// Calls `serde_json::from_str` at type `Value`. The contract ties the parsed
/// value's string members to `document_members` of the text, and an error to
/// its `None`.
#[verifier::external_body]
pub(crate) fn parse_value(text: &str) -> (r: Result<serde_json::Value, serde_json::Error>)
    ensures
        match r {
            Ok(value) => document_members(text@) == Some(value_members(value)),
            Err(_) => document_members(text@) is None,
        },
{
    serde_json::from_str::<serde_json::Value>(text)
}

/// Calls `Value::get` with a string key and `Value::as_str` on what it
/// finds. `get` yields the member only where the value is an object that has
/// the key, and `as_str` yields its text only where the member is a string:
/// the result is the entry of `value_members` at `key`, if there is one.
#[verifier::external_body]
pub(crate) fn string_member(value: &serde_json::Value, key: &str) -> (r: Option<String>)
    ensures
        match r {
            Some(s) => value_members(*value).contains_key(key@) && value_members(*value)[key@]
                == s@,
            None => !value_members(*value).contains_key(key@),
        },
{
    let member = value.get(key)?;
    let text = member.as_str()?;
    Some(text.to_owned())
}

/// Builds `Value::String`. Its text is the string literal for `s`.
#[verifier::external_body]
pub(crate) fn text_value(s: &str) -> (r: serde_json::Value)
    ensures
        value_text(r) == string_literal(s@),
{
    serde_json::Value::String(s.to_owned())
}

/// Calls `Value::from` on a `u64`, which makes a non-negative integer number.
/// `serde_json` writes such a number as its decimal numeral.
#[verifier::external_body]
pub(crate) fn number_value(n: u64) -> (r: serde_json::Value)
    ensures
        value_text(r) == decimal_text(n as nat),
{
    serde_json::Value::from(n)
}

/// Calls `Map::new`, which makes a map without members.
#[verifier::external_body]
pub(crate) fn empty_object() -> (r: serde_json::Map<String, serde_json::Value>)
    ensures
        object_members(r) =~= Map::empty(),
{
    serde_json::Map::new()
}

/// Calls `Map::insert`, which sets the member at `key` to `value`, replacing
/// an earlier member with that key.
#[verifier::external_body]
pub(crate) fn set_member(
    object: &mut serde_json::Map<String, serde_json::Value>,
    key: &str,
    value: serde_json::Value,
)
    ensures
        object_members(*final(object)) == object_members(*old(object)).insert(
            key@,
            value_text(value),
        ),
{
    object.insert(key.to_owned(), value);
}

/// Builds `Value::Object` from `object` and writes it with `Value`'s
/// `Display` impl, which gives the compact text. The map keeps its members
/// sorted by key, so the text depends on the members alone.
#[verifier::external_body]
pub(crate) fn render_object(object: serde_json::Map<String, serde_json::Value>) -> (r: String)
    ensures
        r@ == object_text(object_members(object)),
{
    serde_json::Value::Object(object).to_string()
}

} // verus!

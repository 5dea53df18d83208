//! JSON values, as the wire protocol uses them.
//!
//! The values themselves are those of `serde_json`; [`Json`] is what such a value holds.

use vstd::prelude::*;

use crate::text::is_white_space;

verus! {

/// What a JSON value holds.
///
/// `Number` is a number that `u64` represents; `OtherNumber` stands for every other one.
#[verifier::ext_equal]
pub enum Json {
    Null,
    Bool(bool),
    Number(u64),
    OtherNumber,
    Text(Seq<char>),
    List(Seq<Json>),
    Record(Map<Seq<char>, Json>),
}

/// The JSON value of `serde_json`, known through [`json_of`] only.
#[verifier::external_type_specification]
#[verifier::external_body]
pub struct ExValue(serde_json::Value);

/// What `value` holds.
pub uninterp spec fn json_of(value: serde_json::Value) -> Json;

/// What `serde_json::from_str` reads from `text`; `None` where it reports an error.
pub uninterp spec fn json_parsed(text: Seq<char>) -> Option<Json>;

/// The compact text in which `serde_json` writes a value that holds `json`.
pub uninterp spec fn json_text(json: Json) -> Seq<char>;

/// A value whose numbers are all of type `u64`, and which has at most `depth` levels of lists
/// and records.
pub open spec fn nests(json: Json, depth: nat) -> bool
    decreases depth,
{
    match json {
        Json::Null | Json::Bool(_) | Json::Number(_) | Json::Text(_) => true,
        Json::OtherNumber => false,
        Json::List(items) => depth > 0 && forall|i: int|
            0 <= i < items.len() ==> nests(#[trigger] items[i], (depth - 1) as nat),
        Json::Record(fields) => depth > 0 && forall|key: Seq<char>|
            fields.contains_key(key) ==> nests(#[trigger] fields[key], (depth - 1) as nat),
    }
}

/// What the protocol sends: at most a list of records.
pub open spec fn is_message(json: Json) -> bool {
    nests(json, 2)
}

/// The fields of a record; none where `json` is something else.
pub open spec fn fields_of(json: Json) -> Map<Seq<char>, Json> {
    match json {
        Json::Record(fields) => fields,
        _ => Map::empty(),
    }
}

/// The field `key`, or `Null` where there is none.
pub open spec fn field_of(json: Json, key: Seq<char>) -> Json {
    if fields_of(json).contains_key(key) {
        fields_of(json)[key]
    } else {
        Json::Null
    }
}

/// The text that `json` is, if it is one.
pub open spec fn text_of(json: Json) -> Option<Seq<char>> {
    match json {
        Json::Text(text) => Some(text),
        _ => None,
    }
}

/// The number that `json` is, if it is one of type `u64`.
pub open spec fn number_of(json: Json) -> Option<u64> {
    match json {
        Json::Number(number) => Some(number),
        _ => None,
    }
}

/// `serde_json::Value::Null`.
#[verifier::external_body]
pub(crate) fn null() -> (value: serde_json::Value)
    ensures
        json_of(value) == Json::Null,
{
    serde_json::Value::Null
}

/// `serde_json::Value::Bool`.
#[verifier::external_body]
pub(crate) fn boolean(flag: bool) -> (value: serde_json::Value)
    ensures
        json_of(value) == Json::Bool(flag),
{
    serde_json::Value::Bool(flag)
}

/// `serde_json::Value::from` of a `u64`, which makes a number.
#[verifier::external_body]
pub(crate) fn number(n: u64) -> (value: serde_json::Value)
    ensures
        json_of(value) == Json::Number(n),
{
    serde_json::Value::from(n)
}

/// `serde_json::Value::from` of a string slice, which makes a string with the same characters.
#[verifier::external_body]
pub(crate) fn string(text: &str) -> (value: serde_json::Value)
    ensures
        json_of(value) == Json::Text(text@),
{
    serde_json::Value::from(text)
}

/// `serde_json::Value::Array`, which holds the given items in their order.
#[verifier::external_body]
pub(crate) fn list(items: Vec<serde_json::Value>) -> (value: serde_json::Value)
    ensures
        json_of(value) == Json::List(items@.map_values(|item: serde_json::Value| json_of(item))),
{
    serde_json::Value::Array(items)
}

/// `serde_json::Value`'s `index_mut` with a string, which makes an empty record of null, panics
/// on what is neither null nor a record, and gives the place of the field; the field is then
/// overwritten.
#[verifier::external_body]
pub(crate) fn set_field(record: &mut serde_json::Value, key: &str, field: serde_json::Value)
    requires
        json_of(*old(record)) is Null || json_of(*old(record)) is Record,
    ensures
        json_of(*final(record)) == Json::Record(
            fields_of(json_of(*old(record))).insert(key@, json_of(field)),
        ),
{
    record[key] = field;
}

/// `serde_json::Value`'s `index` with a string: the field, and null where the value is no record
/// or lacks the field.
#[verifier::external_body]
pub(crate) fn field<'a>(value: &'a serde_json::Value, key: &str) -> (found: &'a serde_json::Value)
    ensures
        json_of(*found) == field_of(json_of(*value), key@),
{
    &value[key]
}

/// `serde_json::Value::as_str`: the characters of a string, and `None` for all else.
#[verifier::external_body]
pub(crate) fn as_text(value: &serde_json::Value) -> (text: Option<&str>)
    ensures
        match text_of(json_of(*value)) {
            Some(held) => text matches Some(found) && found@ == held,
            None => text is None,
        },
{
    value.as_str()
}

/// `serde_json::Value::as_u64`: a number that `u64` represents, and `None` for all else.
#[verifier::external_body]
pub(crate) fn as_number(value: &serde_json::Value) -> (number: Option<u64>)
    ensures
        number == number_of(json_of(*value)),
{
    value.as_u64()
}

/// `serde_json::from_str` into a value. What it reads is named, not described.
#[verifier::external_body]
pub(crate) fn parse(text: &str) -> (value: Option<serde_json::Value>)
    ensures
        match value {
            Some(read) => json_parsed(text@) == Some(json_of(read)),
            None => json_parsed(text@) is None,
        },
{
    serde_json::from_str(text).ok()
}

/// The `Display` form of `serde_json::Value`. The text is named, not described; some things are
/// said of it. It is not empty, and there is white space at neither end: the first character and the
/// last are each a bracket, a quotation mark, a digit or a letter. It holds no line end, since the
/// compact form has no layout and escapes control characters in strings.
/// `serde_json::from_str` reads the same value back from it, and does so too where a line end
/// follows, which is white space to it.
#[verifier::external_body]
pub(crate) fn render(value: &serde_json::Value) -> (text: String)
    requires
        is_message(json_of(*value)),
    ensures
        text@ == json_text(json_of(*value)),
        text@.len() > 0,
        !is_white_space(text@.first()),
        !is_white_space(text@.last()),
        !text@.contains('\n'),
        json_parsed(text@) == Some(json_of(*value)),
        json_parsed(text@.push('\n')) == Some(json_of(*value)),
{
    value.to_string()
}

} // verus!

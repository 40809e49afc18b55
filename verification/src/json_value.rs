//! The boundary to the `json` crate. Its values stay what they are; the
//! verified code reads them through the functions below, whose contracts
//! are taken from the crate's source and are not proved here.

use vstd::prelude::*;
use crate::limits::within_parser_limits;
use crate::model::Tree;

verus! {

#[verifier::external_type_specification]
#[verifier::external_body]
pub struct ExJsonValue(json::JsonValue);

#[verifier::external_type_specification]
#[verifier::external_body]
pub struct ExJsonError(json::Error);

/// What a `json::JsonValue` holds. Short and heap strings are both `Text`;
/// the fields of an object stand in the order in which `entries` walks
/// them; a number is known only as a number.
pub uninterp spec fn json_tree(value: json::JsonValue) -> Tree;

/// What `json::parse` reads from a text: the document, or `None` where
/// the text is not JSON.
pub uninterp spec fn parsed_json(text: Seq<char>) -> Option<Tree>;

/// Calls `json::parse`, which depends on the text alone: it returns the
/// document named `parsed_json`, or an error where that is `None`. The
/// parser counts the digits behind the point of a number downwards in
/// sixteen bits and fails to return where that count overflows, so a
/// text with a longer fraction is kept from it.
#[verifier::external_body]
pub(crate) fn parse_json(text: &str) -> (r: Result<json::JsonValue, json::Error>)
    requires
        within_parser_limits(text@),
    ensures
        match r {
            Ok(value) => parsed_json(text@) == Some(json_tree(value)),
            Err(_) => parsed_json(text@) is None,
        },
{
    json::parse(text)
}

/// What a `json::Error` of the variant `WrongType` holds: the text that
/// says what was expected. `None` for an error of any other variant.
pub uninterp spec fn wrong_type_text(error: json::Error) -> Option<Seq<char>>;

/// Calls `json::Error::wrong_type`, which builds the error of the variant
/// `WrongType` around a copy of the text.
#[verifier::external_body]
pub(crate) fn wrong_type(expected: &str) -> (r: json::Error)
    ensures
        wrong_type_text(r) == Some(expected@),
{
    json::Error::wrong_type(expected)
}

/// Calls `JsonValue::is_object`: true of the variant `Object` alone.
#[verifier::external_body]
pub(crate) fn is_object(value: &json::JsonValue) -> (r: bool)
    ensures
        r == (json_tree(*value) is Object),
{
    value.is_object()
}

/// Calls `JsonValue::is_array`: true of the variant `Array` alone.
#[verifier::external_body]
pub(crate) fn is_array(value: &json::JsonValue) -> (r: bool)
    ensures
        r == (json_tree(*value) is Array),
{
    value.is_array()
}

/// Calls `JsonValue::is_string`: true of both string variants, and of no
/// other.
#[verifier::external_body]
pub(crate) fn is_string(value: &json::JsonValue) -> (r: bool)
    ensures
        r == (json_tree(*value) is Text),
{
    value.is_string()
}

/// Calls `JsonValue::is_boolean`: true of the variant `Boolean` alone.
#[verifier::external_body]
pub(crate) fn is_boolean(value: &json::JsonValue) -> (r: bool)
    ensures
        r == (json_tree(*value) is Boolean),
{
    value.is_boolean()
}

/// Calls `JsonValue::as_str`: the characters of a string value, and
/// `None` for every other kind.
#[verifier::external_body]
pub(crate) fn as_str(value: &json::JsonValue) -> (r: Option<&str>)
    ensures
        match r {
            Some(s) => json_tree(*value) == Tree::Text(s@),
            None => !(json_tree(*value) is Text),
        },
{
    value.as_str()
}

/// Calls `JsonValue::as_bool`: the truth value of a boolean, and `None`
/// for every other kind.
#[verifier::external_body]
pub(crate) fn as_bool(value: &json::JsonValue) -> (r: Option<bool>)
    ensures
        match r {
            Some(b) => json_tree(*value) == Tree::Boolean(b),
            None => !(json_tree(*value) is Boolean),
        },
{
    value.as_bool()
}

/// Calls `JsonValue::members` and collects what the iterator yields: the
/// items of an array in their order, and nothing for any other kind.
#[verifier::external_body]
pub(crate) fn members(value: &json::JsonValue) -> (r: Vec<&json::JsonValue>)
    ensures
        match json_tree(*value) {
            Tree::Array(items) => {
                &&& r@.len() == items.len()
                &&& forall|i: int| 0 <= i < items.len() ==> json_tree(*#[trigger] r@[i]) == items[i]
            },
            _ => r@.len() == 0,
        },
{
    value.members().collect()
}

/// Calls `JsonValue::entries` and collects what the iterator yields: the
/// fields of an object, key and value, in their order, and nothing for
/// any other kind.
#[verifier::external_body]
pub(crate) fn entries(value: &json::JsonValue) -> (r: Vec<(&str, &json::JsonValue)>)
    ensures
        match json_tree(*value) {
            Tree::Object(fields) => {
                &&& r@.len() == fields.len()
                &&& forall|i: int| 0 <= i < fields.len() ==> {
                    &&& (#[trigger] r@[i]).0@ == fields[i].0
                    &&& json_tree(*r@[i].1) == fields[i].1
                }
            },
            _ => r@.len() == 0,
        },
{
    value.entries().collect()
}

} // verus!

//! The mathematical model of a configuration and of its translation into
//! command-line tokens. Everything here is specification: the executable
//! translator is proved against these functions.

use vstd::prelude::*;
use crate::quote::quoted;

verus! {

/// A JSON value as the translator sees it.
pub enum Tree {
    Null,
    Number,
    Boolean(bool),
    Text(Seq<char>),
    Array(Seq<Tree>),
    Object(Seq<(Seq<char>, Tree)>),
}

/// The words, separated by single spaces.
pub open spec fn joined(words: Seq<Seq<char>>) -> Seq<char>
    decreases words.len(),
{
    if words.len() == 0 {
        Seq::empty()
    } else if words.len() == 1 {
        words[0]
    } else {
        joined(words.drop_last()) + " "@ + words.last()
    }
}

/// `--key`
pub open spec fn flag_token(key: Seq<char>) -> Seq<char> {
    "--"@ + key
}

/// `--key=value`, the value quoted.
pub open spec fn value_token(key: Seq<char>, value: Seq<char>) -> Seq<char> {
    "--"@ + key + "="@ + quoted(value)
}

/// `--key:value`, the value quoted.
pub open spec fn item_token(key: Seq<char>, value: Seq<char>) -> Seq<char> {
    "--"@ + key + ":"@ + quoted(value)
}

/// `--key:name=value`, the value quoted.
pub open spec fn field_token(key: Seq<char>, name: Seq<char>, value: Seq<char>) -> Seq<char> {
    "--"@ + key + ":"@ + name + "="@ + quoted(value)
}

/// What an item of the value of `entry` names: a string names itself,
/// quoted, and an item of any other kind names nothing.
pub open spec fn entry_of_item() -> spec_fn(Tree) -> Option<Seq<char>> {
    |item: Tree|
        match item {
            Tree::Text(s) => Some(quoted(s)),
            _ => None,
        }
}

/// What an item of an array under `key` contributes: `--key:value` for a
/// string, and nothing for an item of any other kind.
pub open spec fn token_of_item(key: Seq<char>) -> spec_fn(Tree) -> Option<Seq<char>> {
    |item: Tree|
        match item {
            Tree::Text(s) => Some(item_token(key, s)),
            _ => None,
        }
}

/// What a field of an object under `key` contributes: `--key:name=value`
/// where it holds a string, and nothing where it holds anything else.
pub open spec fn token_of_field(key: Seq<char>) -> spec_fn((Seq<char>, Tree)) -> Option<
    Seq<char>,
> {
    |field: (Seq<char>, Tree)|
        match field.1 {
            Tree::Text(s) => Some(field_token(key, field.0, s)),
            _ => None,
        }
}

/// The strings among `items`, each quoted, in order.
pub open spec fn quoted_texts(items: Seq<Tree>) -> Seq<Seq<char>> {
    items.filter_map(entry_of_item())
}

/// One `--key:value` token for each string among `items`, in order.
pub open spec fn item_tokens(key: Seq<char>, items: Seq<Tree>) -> Seq<Seq<char>> {
    items.filter_map(token_of_item(key))
}

/// One `--key:name=value` token for each field that holds a string, in order.
pub open spec fn field_tokens(key: Seq<char>, fields: Seq<(Seq<char>, Tree)>) -> Seq<Seq<char>> {
    fields.filter_map(token_of_field(key))
}

/// The tokens joined by spaces, or nothing where there is no token.
pub open spec fn joined_or_none(tokens: Seq<Seq<char>>) -> Option<Seq<char>> {
    if tokens.len() == 0 {
        None
    } else {
        Some(joined(tokens))
    }
}

/// The entry files that the value of the key `entry` names, if any.
pub open spec fn entries_of(value: Tree) -> Option<Seq<Seq<char>>> {
    match value {
        Tree::Text(s) => Some(seq![quoted(s)]),
        Tree::Array(items) => if quoted_texts(items).len() == 0 {
            None
        } else {
            Some(quoted_texts(items))
        },
        _ => None,
    }
}

/// What a `true` or `false` under `key` contributes.
pub open spec fn bool_option(key: Seq<char>, value: Tree) -> Option<Seq<char>> {
    match value {
        Tree::Boolean(true) => Some(flag_token(key)),
        _ => None,
    }
}

/// What a string under `key` contributes.
pub open spec fn string_option(key: Seq<char>, value: Tree) -> Option<Seq<char>> {
    match value {
        Tree::Text(s) => Some(value_token(key, s)),
        _ => None,
    }
}

/// What an array under `key` contributes.
pub open spec fn array_option(key: Seq<char>, value: Tree) -> Option<Seq<char>> {
    match value {
        Tree::Array(items) => joined_or_none(item_tokens(key, items)),
        _ => None,
    }
}

/// What an object under `key` contributes.
pub open spec fn object_option(key: Seq<char>, value: Tree) -> Option<Seq<char>> {
    match value {
        Tree::Object(fields) => joined_or_none(field_tokens(key, fields)),
        _ => None,
    }
}

/// The option that one member of the configuration contributes, if any.
pub open spec fn option_of(key: Seq<char>, value: Tree) -> Option<Seq<char>> {
    match value {
        Tree::Boolean(_) => bool_option(key, value),
        Tree::Text(_) => string_option(key, value),
        Tree::Array(_) => array_option(key, value),
        Tree::Object(_) => object_option(key, value),
        _ => None,
    }
}

/// What a member of the configuration contributes to the options: the
/// member `entry` nothing, any other its option.
pub open spec fn option_of_member() -> spec_fn((Seq<char>, Tree)) -> Option<Seq<char>> {
    |member: (Seq<char>, Tree)|
        if member.0 == "entry"@ {
            None
        } else {
            option_of(member.0, member.1)
        }
}

/// The options of a configuration, in the order of its members.
pub open spec fn options_of(fields: Seq<(Seq<char>, Tree)>) -> Seq<Seq<char>> {
    fields.filter_map(option_of_member())
}

/// The entry files of a configuration: those of the last member `entry`
/// that names any.
pub open spec fn entries_in(fields: Seq<(Seq<char>, Tree)>) -> Seq<Seq<char>>
    decreases fields.len(),
{
    if fields.len() == 0 {
        Seq::empty()
    } else {
        let before = entries_in(fields.drop_last());
        if fields.last().0 == "entry"@ {
            match entries_of(fields.last().1) {
                Some(found) => found,
                None => before,
            }
        } else {
            before
        }
    }
}

/// The argument string of a configuration object: options first, then
/// entry files, all separated by single spaces.
pub open spec fn rendered(fields: Seq<(Seq<char>, Tree)>) -> Seq<char> {
    joined(options_of(fields) + entries_in(fields))
}

/// The value of the first field called `name`, if there is one.
pub open spec fn field_named(fields: Seq<(Seq<char>, Tree)>, name: Seq<char>) -> Option<Tree>
    decreases fields.len(),
{
    if fields.len() == 0 {
        None
    } else if fields[0].0 == name {
        Some(fields[0].1)
    } else {
        field_named(fields.skip(1), name)
    }
}

/// The argument string of a document, or `None` where its shape is wrong.
///
/// Without `subfield` the document is the configuration. With it the
/// configuration is the member of that name; a document without such a
/// member configures nothing. The document and the configuration must be
/// objects.
pub open spec fn translated(root: Tree, subfield: Option<Seq<char>>) -> Option<Seq<char>> {
    match root {
        Tree::Object(fields) => match subfield {
            None => Some(rendered(fields)),
            Some(name) => match field_named(fields, name) {
                None => Some(Seq::empty()),
                Some(Tree::Object(inner)) => Some(rendered(inner)),
                Some(_) => None,
            },
        },
        _ => None,
    }
}

} // verus!

//! The translator: from a parsed configuration to the argument string.

use vstd::prelude::*;
use vstd::string::*;
use crate::errors::ConfigParseError;
use crate::json_value::{
    as_bool, as_str, entries, is_array, is_boolean, is_object, is_string, json_tree, members,
    wrong_type, wrong_type_text,
};
use crate::model::{
    array_option, bool_option, entries_in, entries_of, entry_of_item, field_named, field_token,
    field_tokens, flag_token, item_token, item_tokens, object_option, option_of,
    option_of_member, options_of, quoted_texts, rendered, string_option, token_of_field,
    token_of_item, translated, value_token, Tree,
};
use crate::quote::{mark_if_empty, quoted, shell_escape};
use crate::text::{join_words, same_text, text_of, texts, texts_of};

verus! {

/// Quotes a value so that a shell reads it as one argument: escaped where
/// it has to be, and `''` for the empty string.
pub fn quote_value(value: &str) -> (r: String)
    ensures
        r@ == quoted(value@),
        r@.len() > 0,
        value@.len() == 0 ==> r@ == "''"@,
{
    mark_if_empty(shell_escape(value))
}

/// The option of a boolean: `--key` for `true`, nothing for `false` and
/// for a value of another kind.
pub fn option_from_bool(key: &str, value: &json::JsonValue) -> (r: Option<String>)
    ensures
        text_of(r) == bool_option(key@, json_tree(*value)),
{
    match as_bool(value) {
        Some(flag) => {
            if flag {
                let mut token = String::from_str("--");
                token.append(key);
                proof {
                    assert(token@ =~= flag_token(key@));
                }
                Some(token)
            } else {
                None
            }
        },
        None => None,
    }
}

/// The option of a string: `--key=value`, the value quoted; nothing for a
/// value of another kind.
pub fn option_from_string(key: &str, value: &json::JsonValue) -> (r: Option<String>)
    ensures
        text_of(r) == string_option(key@, json_tree(*value)),
{
    match as_str(value) {
        Some(text) => {
            let word = quote_value(text);
            let mut token = String::from_str("--");
            token.append(key);
            token.append("=");
            token.append(word.as_str());
            proof {
                assert(token@ =~= value_token(key@, text@));
            }
            Some(token)
        },
        None => None,
    }
}

/// The options of an object: `--key:name=value` for each field that holds
/// a string, joined by spaces; nothing where no field does, and for a
/// value of another kind.
pub fn option_from_object(key: &str, value: &json::JsonValue) -> (r: Option<String>)
    ensures
        text_of(r) == object_option(key@, json_tree(*value)),
{
    let fields = entries(value);
    let ghost model: Seq<(Seq<char>, Tree)> = match json_tree(*value) {
        Tree::Object(fields) => fields,
        _ => Seq::empty(),
    };
    let mut options: Vec<String> = Vec::new();
    let mut i: usize = 0;
    while i < fields.len()
        invariant
            i <= fields.len(),
            fields@.len() == model.len(),
            forall|j: int| 0 <= j < model.len() ==> {
                &&& (#[trigger] fields@[j]).0@ == model[j].0
                &&& json_tree(*fields@[j].1) == model[j].1
            },
            texts(options@) == field_tokens(key@, model.take(i as int)),
        decreases fields.len() - i,
    {
        let name: &str = fields[i].0;
        let member: &json::JsonValue = fields[i].1;
        proof {
            model.lemma_filter_map_take_succ(token_of_field(key@), i as int);
            assert(fields@[i as int].0@ == model[i as int].0);
        }
        match as_str(member) {
            Some(text) => {
                let word = quote_value(text);
                let mut token = String::from_str("--");
                token.append(key);
                token.append(":");
                token.append(name);
                token.append("=");
                token.append(word.as_str());
                proof {
                    assert(token@ =~= field_token(key@, name@, text@));
                    assert(texts(options@.push(token)) =~= texts(options@).push(token@));
                }
                options.push(token);
            },
            None => {},
        }
        i += 1;
    }
    proof {
        assert(model.take(i as int) =~= model);
    }
    if options.len() > 0 {
        Some(join_words(&options))
    } else {
        None
    }
}

/// The options of an array: `--key:value` for each string among its
/// items, joined by spaces; nothing where it holds no string, and for a
/// value of another kind.
pub fn option_from_array(key: &str, value: &json::JsonValue) -> (r: Option<String>)
    ensures
        text_of(r) == array_option(key@, json_tree(*value)),
{
    let items = members(value);
    let ghost model: Seq<Tree> = match json_tree(*value) {
        Tree::Array(items) => items,
        _ => Seq::empty(),
    };
    let mut options: Vec<String> = Vec::new();
    let mut i: usize = 0;
    while i < items.len()
        invariant
            i <= items.len(),
            items@.len() == model.len(),
            forall|j: int| 0 <= j < model.len() ==> json_tree(*#[trigger] items@[j]) == model[j],
            texts(options@) == item_tokens(key@, model.take(i as int)),
        decreases items.len() - i,
    {
        let member: &json::JsonValue = items[i];
        proof {
            model.lemma_filter_map_take_succ(token_of_item(key@), i as int);
            assert(json_tree(*items@[i as int]) == model[i as int]);
        }
        match as_str(member) {
            Some(text) => {
                let word = quote_value(text);
                let mut token = String::from_str("--");
                token.append(key);
                token.append(":");
                token.append(word.as_str());
                proof {
                    assert(token@ =~= item_token(key@, text@));
                    assert(texts(options@.push(token)) =~= texts(options@).push(token@));
                }
                options.push(token);
            },
            None => {},
        }
        i += 1;
    }
    proof {
        assert(model.take(i as int) =~= model);
    }
    if options.len() > 0 {
        Some(join_words(&options))
    } else {
        None
    }
}

/// The option that one member of the configuration contributes: by the
/// kind of its value, and nothing for a number or `null`.
pub fn option_from_config(key: &str, value: &json::JsonValue) -> (r: Option<String>)
    ensures
        text_of(r) == option_of(key@, json_tree(*value)),
{
    if is_boolean(value) {
        return option_from_bool(key, value);
    }
    if is_string(value) {
        return option_from_string(key, value);
    }
    if is_array(value) {
        return option_from_array(key, value);
    }
    if is_object(value) {
        return option_from_object(key, value);
    }
    None
}

/// The entry files that the value of `entry` names: the string itself, or
/// the strings among the items of an array, each quoted. `None` where
/// there is none.
pub fn entries_from_config(value: &json::JsonValue) -> (r: Option<Vec<String>>)
    ensures
        texts_of(r) == entries_of(json_tree(*value)),
{
    if is_string(value) {
        return match as_str(value) {
            Some(text) => {
                let mut found: Vec<String> = Vec::new();
                found.push(quote_value(text));
                proof {
                    assert(texts(found@) =~= seq![quoted(text@)]);
                }
                Some(found)
            },
            None => None,
        };
    }
    if is_array(value) {
        let items = members(value);
        let ghost model: Seq<Tree> = json_tree(*value)->Array_0;
        let mut found: Vec<String> = Vec::new();
        let mut i: usize = 0;
        while i < items.len()
            invariant
                i <= items.len(),
                items@.len() == model.len(),
                forall|j: int| 0 <= j < model.len() ==> json_tree(*#[trigger] items@[j]) == model[j],
                texts(found@) == quoted_texts(model.take(i as int)),
            decreases items.len() - i,
        {
            let member: &json::JsonValue = items[i];
            proof {
                model.lemma_filter_map_take_succ(entry_of_item(), i as int);
                assert(json_tree(*items@[i as int]) == model[i as int]);
            }
            match as_str(member) {
                Some(text) => {
                    let word = quote_value(text);
                    proof {
                        assert(texts(found@.push(word)) =~= texts(found@).push(word@));
                    }
                    found.push(word);
                },
                None => {},
            }
            i += 1;
        }
        proof {
            assert(model.take(i as int) =~= model);
        }
        return if found.len() == 0 {
            None
        } else {
            Some(found)
        };
    }
    None
}

/// The argument string of a configuration object: the options of its
/// members in their order, then the entry files.
fn render(config: &json::JsonValue) -> (r: String)
    requires
        json_tree(*config) is Object,
    ensures
        r@ == rendered(json_tree(*config)->Object_0),
{
    let fields = entries(config);
    let ghost model: Seq<(Seq<char>, Tree)> = json_tree(*config)->Object_0;
    let mut options: Vec<String> = Vec::new();
    let mut found: Vec<String> = Vec::new();
    let mut i: usize = 0;
    while i < fields.len()
        invariant
            i <= fields.len(),
            fields@.len() == model.len(),
            forall|j: int| 0 <= j < model.len() ==> {
                &&& (#[trigger] fields@[j]).0@ == model[j].0
                &&& json_tree(*fields@[j].1) == model[j].1
            },
            texts(options@) == options_of(model.take(i as int)),
            texts(found@) == entries_in(model.take(i as int)),
        decreases fields.len() - i,
    {
        let key: &str = fields[i].0;
        let value: &json::JsonValue = fields[i].1;
        proof {
            model.lemma_filter_map_take_succ(option_of_member(), i as int);
            assert(model.take(i + 1).drop_last() =~= model.take(i as int));
            assert(model.take(i + 1).last() == model[i as int]);
            assert(fields@[i as int].0@ == model[i as int].0);
        }
        if same_text(key, "entry") {
            match entries_from_config(value) {
                Some(result) => {
                    found = result;
                },
                None => {},
            }
        } else {
            match option_from_config(key, value) {
                Some(token) => {
                    proof {
                        assert(texts(options@.push(token)) =~= texts(options@).push(token@));
                    }
                    options.push(token);
                },
                None => {},
            }
        }
        i += 1;
    }
    proof {
        assert(model.take(i as int) =~= model);
        assert(texts(options@ + found@) =~= texts(options@) + texts(found@));
    }
    options.append(&mut found);
    join_words(&options)
}

/// The value of the first field called `name`, if the object has one.
fn find_field<'a>(fields: &Vec<(&'a str, &'a json::JsonValue)>, name: &str) -> (r: Option<
    &'a json::JsonValue,
>)
    ensures
        match r {
            Some(value) => field_named(field_models(fields@), name@) == Some(json_tree(*value)),
            None => field_named(field_models(fields@), name@) is None,
        },
{
    let ghost model = field_models(fields@);
    let mut i: usize = 0;
    proof {
        assert(model.skip(0) =~= model);
    }
    while i < fields.len()
        invariant
            i <= fields.len(),
            model == field_models(fields@),
            field_named(model, name@) == field_named(model.skip(i as int), name@),
        decreases fields.len() - i,
    {
        proof {
            assert(model.skip(i as int).skip(1) =~= model.skip(i + 1));
            assert(model.skip(i as int)[0] == model[i as int]);
        }
        if same_text(fields[i].0, name) {
            return Some(fields[i].1);
        }
        i += 1;
    }
    None
}

/// The fields as the model has them: each key by its characters, each
/// value by its tree.
pub open spec fn field_models(fields: Seq<(&str, &json::JsonValue)>) -> Seq<(Seq<char>, Tree)> {
    fields.map_values(|f: (&str, &json::JsonValue)| (f.0@, json_tree(*f.1)))
}

/// The error for a document of the wrong shape, saying what was expected.
fn shape_error(expected: &str) -> (r: ConfigParseError)
    ensures
        is_shape_error(r, expected@),
{
    ConfigParseError::JsonError(wrong_type(expected))
}

/// `e` is the error for a value of the wrong kind, and says that
/// `expected` was expected.
pub open spec fn is_shape_error(e: ConfigParseError, expected: Seq<char>) -> bool {
    e matches ConfigParseError::JsonError(inner) && wrong_type_text(inner) == Some(expected)
}

/// `r` is what translating `root` returns.
pub open spec fn is_translation(
    r: Result<String, ConfigParseError>,
    root: Tree,
    subfield: Option<Seq<char>>,
) -> bool {
    match translated(root, subfield) {
        Some(args) => r matches Ok(out) && out@ == args,
        None => r matches Err(e) && e is JsonError,
    }
}

/// Translates a document into the argument string.
///
/// Without `subfield` the document is the configuration. With it the
/// configuration is the member of that name, and a document that has no
/// such member yields the empty string. Fails where the document or the
/// configuration is not an object, with an error that says so.
pub fn translate(root: &json::JsonValue, subfield: Option<&str>) -> (r: Result<
    String,
    ConfigParseError,
>)
    ensures
        is_translation(r, json_tree(*root), subfield_text(subfield)),
        r matches Err(e) ==> is_shape_error(e, "The JSON main type must be an object."@),
{
    if !is_object(root) {
        return Err(shape_error("The JSON main type must be an object."));
    }
    match subfield {
        None => Ok(render(root)),
        Some(name) => {
            let fields = entries(root);
            proof {
                assert(field_models(fields@) =~= json_tree(*root)->Object_0);
            }
            match find_field(&fields, name) {
                None => Ok(String::new()),
                Some(config) => {
                    if is_object(config) {
                        Ok(render(config))
                    } else {
                        Err(shape_error("The JSON main type must be an object."))
                    }
                },
            }
        },
    }
}

/// The name of the subfield, where one is given.
pub open spec fn subfield_text(subfield: Option<&str>) -> Option<Seq<char>> {
    match subfield {
        Some(name) => Some(name@),
        None => None,
    }
}

/// The argument string of a configuration that is a document of its own.
pub fn args_from_config_json_value(json: json::JsonValue) -> (r: Result<String, ConfigParseError>)
    ensures
        is_translation(r, json_tree(json), None),
        r matches Err(e) ==> is_shape_error(e, "The JSON main type must be an object."@),
{
    translate(&json, None)
}

/// The argument string of the configuration that a `package.json` holds
/// in its member `esbuild`.
pub fn args_from_package_json_value(json: json::JsonValue) -> (r: Result<String, ConfigParseError>)
    ensures
        is_translation(r, json_tree(json), Some("esbuild"@)),
        r matches Err(e) ==> is_shape_error(
            e,
            if json_tree(json) is Object {
                "The JSON main type must be an object."@
            } else {
                "The package.json seems malformed."@
            },
        ),
{
    if !is_object(&json) {
        return Err(shape_error("The package.json seems malformed."));
    }
    translate(&json, Some("esbuild"))
}

} // verus!

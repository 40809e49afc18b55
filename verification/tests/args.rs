use esbuild_config::args::{
    args_from_config_json_value, args_from_package_json_value, entries_from_config,
    option_from_array, option_from_bool, option_from_config, option_from_object,
    option_from_string, quote_value, translate,
};
use esbuild_config::errors::ConfigParseError;
use esbuild_config::quote::mark_if_empty;
use esbuild_config::text::{join_words, same_text};

#[test]
fn test_args_from_json_value() {
    let value = json::parse(
        r#"{
                "entry": "index.js",
                "a": true,
                "b": "abc",
                "c": ["def", "ghi"],
                "d": { "e": "jkl", "f": "mno" }
            }"#,
    )
    .unwrap();
    assert_eq!(
        args_from_config_json_value(value).unwrap(),
        "--a --b=abc --c:def --c:ghi --d:e=jkl --d:f=mno index.js"
    );
}

#[test]
fn test_entries_from_config() {
    let value = json::parse("\"path/to/some/file.js\"").unwrap();
    let entries = entries_from_config(&value).unwrap();
    assert_eq!(entries[0], "path/to/some/file.js");

    let value = json::parse("[\"path/to/some/file.js\"]").unwrap();
    let entries = entries_from_config(&value).unwrap();
    assert_eq!(entries[0], "path/to/some/file.js");

    let value = json::parse(
        r#"[
                "path/to/some/file.js",
                "./path with spaces.js",
                true
            ]"#,
    )
    .unwrap();
    let entries = entries_from_config(&value).unwrap();
    assert_eq!(entries[0], "path/to/some/file.js");
    assert_eq!(entries[1], "'./path with spaces.js'");
    assert!(entries.get(2).is_none());

    let value = json::parse("[]").unwrap();
    assert!(entries_from_config(&value).is_none());

    let value = json::parse("true").unwrap();
    assert!(entries_from_config(&value).is_none());
}

#[test]
fn test_option_from_config() {
    let value = json::parse("true").unwrap();
    assert!(!option_from_config("name", &value).is_none());

    let value = json::parse("false").unwrap();
    assert!(option_from_config("name", &value).is_none());

    let value = json::parse("\"a\"").unwrap();
    assert!(!option_from_config("name", &value).is_none());

    let value = json::parse("[\"a\"]").unwrap();
    assert!(!option_from_config("name", &value).is_none());

    let value = json::parse("{\"a\": \"abc\"}").unwrap();
    assert!(!option_from_config("name", &value).is_none());

    let value = json::parse("null").unwrap();
    assert!(option_from_config("name", &value).is_none());
}

#[test]
fn test_option_from_bool() {
    let value = json::parse("true").unwrap();
    assert_eq!(option_from_bool("name", &value).unwrap(), "--name");

    let value = json::parse("false").unwrap();
    assert!(option_from_bool("name", &value).is_none());

    // Wrong types get ignored
    let value = json::parse("1").unwrap();
    assert!(option_from_bool("name", &value).is_none());
}

#[test]
fn test_option_from_string() {
    let value = json::parse("\"a\"").unwrap();
    assert_eq!(option_from_string("name", &value).unwrap(), "--name=a");

    // Wrong types get ignored
    let value = json::parse("1").unwrap();
    assert!(option_from_string("name", &value).is_none());

    // Empty value
    let value = json::parse("\"\"").unwrap();
    assert_eq!(option_from_string("name", &value).unwrap(), "--name=''");
}

#[test]
fn test_option_from_object() {
    let value = json::parse("{ \"a\": \"abc\", \"b\": \"def\" }").unwrap();
    assert_eq!(
        option_from_object("name", &value).unwrap(),
        "--name:a=abc --name:b=def"
    );

    let value = json::parse("{}").unwrap();
    assert!(option_from_object("name", &value).is_none());

    // Wrong types in the object get ignored
    let value = json::parse("{ \"a\": \"abc\", \"b\": 123 }").unwrap();
    assert_eq!(option_from_object("name", &value).unwrap(), "--name:a=abc");
}

#[test]
fn test_option_from_array() {
    let value = json::parse("[\"a\", \"b\", \"c\"]").unwrap();
    assert_eq!(
        option_from_array("name", &value).unwrap(),
        "--name:a --name:b --name:c"
    );

    // Empty arrays
    let value = json::parse("[]").unwrap();
    assert!(option_from_array("name", &value).is_none());

    // Wrong types in the array get ignored
    let value = json::parse("[\"a\", 1, \"b\"]").unwrap();
    assert_eq!(
        option_from_array("name", &value).unwrap(),
        "--name:a --name:b"
    );
}

#[test]
fn test_quote_value() {
    assert_eq!(quote_value("value"), "value");

    // Having a space should return the value with quotes
    assert_eq!(quote_value("with space"), "'with space'");

    // Having a quote should return the value with quotes
    assert_eq!(quote_value("with\"quote"), "'with\"quote'");
    assert_eq!(quote_value("with'quote"), "\"with'quote\"");
}

#[test]
fn quote_value_marks_the_empty_string() {
    assert_eq!(quote_value(""), "''");
}

#[test]
fn quote_value_escapes_inside_double_quotes() {
    assert_eq!(quote_value("it's $HOME"), "\"it's \\$HOME\"");
    assert_eq!(quote_value("tab\there"), "\"tab\\there\"");
}

#[test]
fn mark_if_empty_keeps_other_strings() {
    assert_eq!(mark_if_empty(String::new()), "''");
    assert_eq!(mark_if_empty(String::from("a")), "a");
    assert_eq!(mark_if_empty(String::from(" ")), " ");
}

#[test]
fn join_words_puts_single_spaces_between() {
    assert_eq!(join_words(&vec![]), "");
    assert_eq!(join_words(&vec![String::from("a")]), "a");
    assert_eq!(
        join_words(&vec![String::from("a"), String::from("b"), String::from("c")]),
        "a b c"
    );
    assert_eq!(join_words(&vec![String::new(), String::new()]), " ");
}

#[test]
fn same_text_compares_characters() {
    assert!(same_text("entry", "entry"));
    assert!(!same_text("entry", "entries"));
    assert!(!same_text("", "entry"));
    assert!(same_text("", ""));
}

#[test]
fn entry_alone_gives_the_quoted_string() {
    for s in ["index.js", "src/my file.js", "", "it's.js"] {
        let mut root = json::JsonValue::new_object();
        root.insert("entry", s).unwrap();
        assert_eq!(translate(&root, None).unwrap(), quote_value(s));
    }
    let mut root = json::JsonValue::new_object();
    root.insert("entry", "src/my file.js").unwrap();
    assert_eq!(translate(&root, None).unwrap(), "'src/my file.js'");
}

#[test]
fn false_gives_no_token_and_true_gives_the_flag() {
    let value = json::parse(r#"{"minify": false}"#).unwrap();
    assert_eq!(translate(&value, None).unwrap(), "");
    let value = json::parse(r#"{"minify": true}"#).unwrap();
    assert_eq!(translate(&value, None).unwrap(), "--minify");
    let value = json::parse(r#"{"a": true, "b": false, "c": true}"#).unwrap();
    assert_eq!(translate(&value, None).unwrap(), "--a --c");
}

#[test]
fn values_without_strings_give_no_token() {
    for text in ["[]", "{}", "[1, true, null]", r#"{"a": 1, "b": [], "c": {}}"#, "1", "null"] {
        let value = json::parse(text).unwrap();
        assert!(option_from_config("name", &value).is_none());
    }
    for text in ["[]", "[1, true, null]", "{}", "1", "null", "false"] {
        let value = json::parse(text).unwrap();
        assert!(entries_from_config(&value).is_none());
    }
    let value = json::parse(r#"{"a": [], "b": {}, "c": [1], "d": {"e": 2}, "f": 3, "g": null}"#)
        .unwrap();
    assert_eq!(translate(&value, None).unwrap(), "");
}

#[test]
fn nested_values_are_not_followed() {
    let value = json::parse(r#"[["a"], "b", {"c": "d"}]"#).unwrap();
    assert_eq!(option_from_array("name", &value).unwrap(), "--name:b");
    let value = json::parse(r#"{"a": ["b"], "c": {"d": "e"}, "f": "g h"}"#).unwrap();
    assert_eq!(option_from_object("name", &value).unwrap(), "--name:f='g h'");
}

#[test]
fn root_that_is_no_object_fails() {
    for text in ["true", "1", "null", "\"a\"", "[]", "[{\"a\": true}]"] {
        let value = json::parse(text).unwrap();
        assert!(matches!(translate(&value, None), Err(ConfigParseError::JsonError(_))));
        assert!(matches!(
            translate(&value, Some("esbuild")),
            Err(ConfigParseError::JsonError(_))
        ));
        assert!(matches!(
            args_from_config_json_value(value.clone()),
            Err(ConfigParseError::JsonError(_))
        ));
        assert!(matches!(
            args_from_package_json_value(value),
            Err(ConfigParseError::JsonError(_))
        ));
    }
}

#[test]
fn translating_twice_gives_the_same_string() {
    let text = r#"{"entry": ["a.js", "b c.js"], "x": "it's", "y": {"z": ""}, "w": ["$1"]}"#;
    let value = json::parse(text).unwrap();
    let first = translate(&value, None).unwrap();
    let second = translate(&value, None).unwrap();
    assert_eq!(first, second);
    assert_eq!(first, "--x=\"it's\" --y:z='' --w:'$1' a.js 'b c.js'");
}

#[test]
fn entries_stand_behind_the_options_in_their_own_order() {
    let value = json::parse(r#"{"a": true, "entry": ["x.js", 1, "y.js"], "b": "c"}"#).unwrap();
    assert_eq!(translate(&value, None).unwrap(), "--a --b=c x.js y.js");
    let value = json::parse(r#"{"entry": [], "z": true}"#).unwrap();
    assert_eq!(translate(&value, None).unwrap(), "--z");
    let value = json::parse(r#"{"entry": true}"#).unwrap();
    assert_eq!(translate(&value, None).unwrap(), "");
    let value = json::parse("{}").unwrap();
    assert_eq!(translate(&value, None).unwrap(), "");
}

#[test]
fn subfield_holds_the_configuration() {
    let value =
        json::parse(r#"{"name": "pkg", "esbuild": {"entry": "index.js", "bundle": true}}"#)
            .unwrap();
    assert_eq!(translate(&value, Some("esbuild")).unwrap(), "--bundle index.js");
    assert_eq!(
        args_from_package_json_value(value.clone()).unwrap(),
        "--bundle index.js"
    );
    assert_eq!(translate(&value, Some("name")).is_err(), true);
    assert_eq!(
        translate(&value, None).unwrap(),
        "--name=pkg --esbuild:entry=index.js"
    );
}

#[test]
fn absent_subfield_configures_nothing() {
    let value = json::parse(r#"{"name": "pkg"}"#).unwrap();
    assert_eq!(translate(&value, Some("esbuild")).unwrap(), "");
    assert_eq!(args_from_package_json_value(value).unwrap(), "");
}

#[test]
fn subfield_that_is_no_object_fails() {
    for text in [r#"{"esbuild": 1}"#, r#"{"esbuild": null}"#, r#"{"esbuild": ["a"]}"#] {
        let value = json::parse(text).unwrap();
        assert!(matches!(
            args_from_package_json_value(value),
            Err(ConfigParseError::JsonError(_))
        ));
    }
}

#[test]
fn shape_errors_say_what_was_expected() {
    let value = json::parse("1").unwrap();
    match args_from_config_json_value(value.clone()) {
        Err(ConfigParseError::JsonError(e)) => assert_eq!(
            e,
            json::Error::WrongType(String::from("The JSON main type must be an object."))
        ),
        _ => panic!("a number was taken for a configuration"),
    }
    match args_from_package_json_value(value) {
        Err(ConfigParseError::JsonError(e)) => assert_eq!(
            e,
            json::Error::WrongType(String::from("The package.json seems malformed."))
        ),
        _ => panic!("a number was taken for a package.json"),
    }
    let value = json::parse(r#"{"esbuild": []}"#).unwrap();
    match args_from_package_json_value(value) {
        Err(ConfigParseError::JsonError(e)) => assert_eq!(
            e,
            json::Error::WrongType(String::from("The JSON main type must be an object."))
        ),
        _ => panic!("an array was taken for a configuration"),
    }
}

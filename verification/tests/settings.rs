use dart_launch::settings::{read_args, read_path, Settings};
use serde_json::Value;

fn json(text: &str) -> Value {
    serde_json::from_str(text).unwrap()
}

#[test]
fn reads_both_settings() {
    let options = json(r#"{"serverPath": "/usr/bin/dart", "serverArgs": ["language-server", "--lsp"]}"#);
    let settings = Settings::read(&options);
    assert_eq!(settings.listed_path, Some("/usr/bin/dart".to_string()));
    assert_eq!(
        settings.listed_args,
        Some(vec![Some("language-server".to_string()), Some("--lsp".to_string())])
    );
}

#[test]
fn empty_object_lists_nothing() {
    let settings = Settings::read(&json("{}"));
    assert_eq!(settings.listed_path, None);
    assert_eq!(settings.listed_args, None);
}

#[test]
fn options_that_are_no_object_list_nothing() {
    for text in ["null", "true", "7", "\"serverPath\"", "[\"serverPath\", \"serverArgs\"]"] {
        let settings = Settings::read(&json(text));
        assert_eq!(settings.listed_path, None);
        assert_eq!(settings.listed_args, None);
    }
}

#[test]
fn elements_of_other_kinds_keep_their_place() {
    let options = json(r#"{"serverArgs": ["a", 1, null, "b", ["c"], {"d": "e"}, true]}"#);
    assert_eq!(
        read_args(&options),
        Some(vec![
            Some("a".to_string()),
            None,
            None,
            Some("b".to_string()),
            None,
            None,
            None
        ])
    );
}

#[test]
fn empty_array_is_listed_as_empty() {
    assert_eq!(read_args(&json(r#"{"serverArgs": []}"#)), Some(vec![]));
}

#[test]
fn args_of_another_kind_are_not_listed() {
    assert_eq!(read_args(&json(r#"{"serverArgs": "language-server"}"#)), None);
    assert_eq!(read_args(&json(r#"{"serverArgs": {"0": "a"}}"#)), None);
    assert_eq!(read_args(&json(r#"{"serverArgs": null}"#)), None);
    assert_eq!(read_args(&json(r#"{"serverargs": ["a"]}"#)), None);
}

#[test]
fn path_of_another_kind_is_not_listed() {
    assert_eq!(read_path(&json(r#"{"serverPath": 5}"#)), None);
    assert_eq!(read_path(&json(r#"{"serverPath": ["dart"]}"#)), None);
    assert_eq!(read_path(&json(r#"{"serverPath": null}"#)), None);
    assert_eq!(read_path(&json(r#"{"serverpath": "dart"}"#)), None);
}

#[test]
fn empty_path_is_listed_as_empty() {
    assert_eq!(read_path(&json(r#"{"serverPath": ""}"#)), Some(String::new()));
}

#[test]
fn path_keeps_its_characters() {
    let options = json(r#"{"serverPath": "C:\\tools\\dart sdk\\bin\\dart.exe"}"#);
    assert_eq!(
        read_path(&options),
        Some("C:\\tools\\dart sdk\\bin\\dart.exe".to_string())
    );
}

#[test]
fn settings_are_read_from_a_value_built_by_hand() {
    let mut entries = serde_json::Map::new();
    entries.insert(
        "serverArgs".to_string(),
        Value::Array(vec![Value::String("x".to_string()), Value::Bool(false)]),
    );
    entries.insert("serverPath".to_string(), Value::String("dart".to_string()));
    let settings = Settings::read(&Value::Object(entries));
    assert_eq!(settings.listed_args, Some(vec![Some("x".to_string()), None]));
    assert_eq!(settings.listed_path, Some("dart".to_string()));
}

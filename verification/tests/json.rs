use common::json::{decimal_string, error_fields, escape, find_member, JsonNumber, JsonValue};

fn object(members: Vec<(&str, JsonValue)>) -> JsonValue {
    JsonValue::Object(members.into_iter().map(|(k, v)| (k.to_string(), v)).collect())
}

#[test]
fn escape_quotes_backslashes_and_controls() {
    assert_eq!(escape("plain text"), "plain text");
    assert_eq!(escape("a\"b"), "a\\\"b");
    assert_eq!(escape("a\\b"), "a\\\\b");
    assert_eq!(escape("\n\t\u{0}\u{1f}"), "\\u000a\\u0009\\u0000\\u001f");
    assert_eq!(escape(" \u{7f}é"), " \u{7f}é");
    assert_eq!(escape(""), "");
}

#[test]
fn escaped_text_is_read_back_by_serde_json() {
    let original = "quote \" backslash \\ newline \n bell \u{7} end";
    let json = format!("\"{}\"", escape(original));
    let back: String = serde_json::from_str(&json).unwrap();
    assert_eq!(back, original);
}

#[test]
fn decimal_of_numbers() {
    assert_eq!(decimal_string(0), "0");
    assert_eq!(decimal_string(10), "10");
    assert_eq!(decimal_string(503), "503");
}

#[test]
fn find_member_by_key() {
    let members = vec![
        ("code".to_string(), JsonValue::Null),
        ("description".to_string(), JsonValue::Bool(true)),
    ];
    assert!(matches!(find_member(&members, "description"), Some(JsonValue::Bool(true))));
    assert!(matches!(find_member(&members, "code"), Some(JsonValue::Null)));
    assert!(find_member(&members, "missing").is_none());
}

#[test]
fn error_fields_of_values() {
    let value = object(vec![
        ("code", JsonValue::Number(JsonNumber::PosInt(404))),
        ("description", JsonValue::String("gone".to_string())),
    ]);
    assert_eq!(error_fields(&value), Some((404, "gone".to_string())));

    let value = object(vec![
        ("code", JsonValue::Number(JsonNumber::NegInt(-1))),
        ("description", JsonValue::String("x".to_string())),
    ]);
    assert_eq!(error_fields(&value), None);

    let value = object(vec![
        ("code", JsonValue::Number(JsonNumber::Float)),
        ("description", JsonValue::String("x".to_string())),
    ]);
    assert_eq!(error_fields(&value), None);

    let value = object(vec![
        ("code", JsonValue::Number(JsonNumber::PosInt(400))),
        ("description", JsonValue::Array(vec![])),
    ]);
    assert_eq!(error_fields(&value), None);

    let value = object(vec![("code", JsonValue::Number(JsonNumber::PosInt(400)))]);
    assert_eq!(error_fields(&value), None);

    assert_eq!(error_fields(&JsonValue::String("code".to_string())), None);
}

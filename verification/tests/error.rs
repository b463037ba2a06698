use common::error::Error;
use common::json::decimal_string;

#[test]
fn test_error_code() {
    let err = Error::BadRequest(String::new());
    assert_eq!(err.code(), 400);

    let err = Error::Unauthorized(String::new());
    assert_eq!(err.code(), 401);

    let err = Error::NotFound(String::new());
    assert_eq!(err.code(), 404);

    let err = Error::Gone(String::new());
    assert_eq!(err.code(), 410);

    let err = Error::ImATeaPot(String::new());
    assert_eq!(err.code(), 418);

    let err = Error::ServerError(String::new());
    assert_eq!(err.code(), 500);

    let err = Error::BadGateway(String::new());
    assert_eq!(err.code(), 502);

    let err = Error::ServiceUnavailable(String::new());
    assert_eq!(err.code(), 503);
}

#[test]
fn parsing_anyhow_error() {
    let generic_anyhow_err = anyhow::Error::msg("An error occurred");
    let err: Error = generic_anyhow_err.into();
    assert_eq!(err.code(), 418);
    assert_eq!(err.description(), "An error occurred".to_string());

    let compatible_err =
        anyhow::Error::msg(Error::NotFound("Item not found".to_string()).to_string());
    let err: Error = compatible_err.into();
    assert_eq!(err.code(), 404);
    assert_eq!(err.description(), "Item not found".to_string());
}

#[test]
fn from_serdejson_error() {
    let serde_result: Result<serde_json::Value, serde_json::Error> =
        serde_json::from_str("invalid json");
    let serde_err = serde_result.unwrap_err();
    let err: Error = serde_err.into();
    assert_eq!(err.code(), 400);
    assert_eq!(err.description(), "expected value at line 1 column 1".to_string());
}

#[test]
fn from_string() {
    let json_raw = r#"{"code":400,"description":"Bad Request"}"#.to_string();
    let err = Error::from_string(json_raw);
    assert_eq!(err.code(), 400);
    assert_eq!(err.description(), "Bad Request".to_string());

    let json_incompatible_raw = r#"{"status": 500, "message":"Error Occurred"}"#.to_string();
    let err = Error::from_string(json_incompatible_raw.clone());
    assert_eq!(err.code(), 418);
    assert_eq!(err.description(), json_incompatible_raw);

    let not_json_raw = "Some random error".to_string();
    let err = Error::from_string(not_json_raw);
    assert_eq!(err.code(), 418);
    assert_eq!(err.description(), "Some random error".to_string());
}

#[test]
fn error_to_string_is_json() {
    let err = Error::NotFound("Item not found".to_string());
    assert_eq!(err.to_string(), r#"{"code": 404, "description": "Item not found"}"#);
    let err = Error::ServiceUnavailable(String::new());
    assert_eq!(err.to_string(), r#"{"code": 503, "description": ""}"#);
}

#[test]
fn error_string_roundtrip() {
    let errors = vec![
        Error::BadRequest("bad".to_string()),
        Error::Unauthorized("who".to_string()),
        Error::NotFound("gone missing".to_string()),
        Error::Gone("long gone".to_string()),
        Error::ImATeaPot("teapot".to_string()),
        Error::ServerError("oops".to_string()),
        Error::BadGateway("upstream".to_string()),
        Error::ServiceUnavailable("later".to_string()),
        Error::BadRequest("say \"hi\" \\ bye".to_string()),
        Error::NotFound("line one\nline two\ttab\u{1}".to_string()),
        Error::Gone("caf\u{e9} \u{1f600}".to_string()),
    ];
    for err in errors {
        let back = Error::from_string(err.to_string());
        assert_eq!(back, err);
    }
}

#[test]
fn from_string_unknown_code() {
    let raw = r#"{"code": 999, "description": "strange"}"#.to_string();
    let err = Error::from_string(raw.clone());
    assert_eq!(err, Error::ImATeaPot(raw));

    let raw = r#"{"code": "404", "description": "text code"}"#.to_string();
    let err = Error::from_string(raw.clone());
    assert_eq!(err, Error::ImATeaPot(raw));

    let raw = r#"{"code": 404}"#.to_string();
    let err = Error::from_string(raw.clone());
    assert_eq!(err, Error::ImATeaPot(raw));
}

#[test]
fn with_code_known_and_unknown() {
    assert_eq!(Error::with_code(410, "x".to_string()), Some(Error::Gone("x".to_string())));
    assert_eq!(Error::with_code(502, "y".to_string()), Some(Error::BadGateway("y".to_string())));
    assert_eq!(Error::with_code(200, "z".to_string()), None);
    assert_eq!(Error::with_code(0, "z".to_string()), None);
}

#[test]
fn from_parsed_fields() {
    let err = Error::from_parsed("raw".to_string(), Some((401, "no token".to_string())));
    assert_eq!(err, Error::Unauthorized("no token".to_string()));
    let err = Error::from_parsed("raw".to_string(), Some((402, "pay".to_string())));
    assert_eq!(err, Error::ImATeaPot("raw".to_string()));
    let err = Error::from_parsed("raw".to_string(), None);
    assert_eq!(err, Error::ImATeaPot("raw".to_string()));
}

#[test]
fn decimal_strings() {
    assert_eq!(decimal_string(0), "0");
    assert_eq!(decimal_string(7), "7");
    assert_eq!(decimal_string(418), "418");
    assert_eq!(decimal_string(1000), "1000");
    assert_eq!(decimal_string(65535), "65535");
}

#[test]
fn error_to_string_escapes() {
    let err = Error::BadRequest("say \"hi\"\\\n".to_string());
    assert_eq!(err.to_string(), r#"{"code": 400, "description": "say \"hi\"\\\u000a"}"#);
    let back = Error::from_string(err.to_string());
    assert_eq!(back, err);
}

#[test]
fn from_string_with_extra_members() {
    let raw = r#"{"description": "late", "other": [1, 2], "code": 503}"#.to_string();
    let err = Error::from_string(raw);
    assert_eq!(err, Error::ServiceUnavailable("late".to_string()));
}

use dropbox_sdk::json::{parse_json, write_json_string, Json};

fn parse_back(s: &str) -> String {
    write_json_string(&parse_json(s).expect("should parse"))
}

#[test]
fn parses_scalars() {
    assert!(matches!(parse_json("null"), Some(Json::Null)));
    assert!(matches!(parse_json("true"), Some(Json::Bool(true))));
    assert!(matches!(parse_json("false"), Some(Json::Bool(false))));
    assert!(matches!(parse_json("42"), Some(Json::Int(42))));
    assert!(matches!(parse_json("-7"), Some(Json::Int(-7))));
    match parse_json("\"hi\\n\\u0041\"") {
        Some(Json::Str(s)) => assert_eq!(s, "hi\nA"),
        other => panic!("unexpected {:?}", other.is_some()),
    }
}

#[test]
fn parses_structures() {
    let v = parse_json(" { \"a\" : [ 1 , 2 ] , \"b\" : { } } ").expect("should parse");
    assert_eq!(write_json_string(&v), "{\"a\":[1,2],\"b\":{}}");
}

#[test]
fn rejects_malformed_text() {
    assert!(parse_json("").is_none());
    assert!(parse_json("{").is_none());
    assert!(parse_json("[1,]").is_none());
    assert!(parse_json("{\"a\":}").is_none());
    assert!(parse_json("\"unterminated").is_none());
    assert!(parse_json("12 34").is_none());
    assert!(parse_json("1.5").is_none());
}

#[test]
fn writes_exactly() {
    assert_eq!(parse_back("null"), "null");
    assert_eq!(parse_back("[true,false,null]"), "[true,false,null]");
    assert_eq!(parse_back("{\"k\":\"v\\\"q\"}"), "{\"k\":\"v\\\"q\"}");
    assert_eq!(parse_back("-9223372036854775808"), "-9223372036854775808");
    assert_eq!(parse_back("9223372036854775807"), "9223372036854775807");
}

#[test]
fn int_overflow_is_rejected() {
    assert!(parse_json("9223372036854775808").is_none());
    assert!(parse_json("-9223372036854775809").is_none());
}

#[test]
fn parses_nested_structures() {
    assert_eq!(parse_back("[[[1]]]"), "[[[1]]]");
    assert_eq!(
        parse_back(r#"{"a":{"b":{"c":[[],[null]]}}}"#),
        r#"{"a":{"b":{"c":[[],[null]]}}}"#
    );
}

use dropbox_sdk::escape::{json_escape_header, json_unescape_header};

#[test]
fn test_json_escape() {
    assert_eq!("foobar", json_escape_header("foobar"));
    assert_eq!("tro\\u0161kovi", json_escape_header("tro\u{0161}kovi"));
    assert_eq!(
        r#"{"field": "some_\u00fc\u00f1\u00eec\u00f8d\u00e9_and_\u007f"}"#,
        json_escape_header("{\"field\": \"some_\u{fc}\u{f1}\u{ee}c\u{f8}d\u{e9}_and_\x7f\"}")
    );
    assert_eq!(
        "almost,\\u007f but not quite",
        json_escape_header("almost,\x7f but not quite")
    );
}

#[test]
fn escape_round_trips() {
    let original = "tro\u{0161}kovi \u{7f} and ascii";
    let escaped = json_escape_header(original);
    assert!(escaped.chars().all(|c| (c as u32) < 0x7f));
    assert_eq!(Some(original.to_owned()), json_unescape_header(&escaped));
}

#[test]
fn escape_identity_on_ascii() {
    let s = "plain ascii, nothing special";
    assert_eq!(s, json_escape_header(s));
}

#[test]
fn unescape_rejects_bad_escapes() {
    assert_eq!(None, json_unescape_header("almost\\q"));
    assert_eq!(None, json_unescape_header("truncated\\u00"));
    assert_eq!(None, json_unescape_header("surrogate\\ud800x"));
    assert_eq!(Some("a\u{0161}b".to_owned()), json_unescape_header("a\\u0161b"));
}

use clawfoundry::json::{signed_or, text_at, text_or, text_or_null, truth_or, unsigned_or};
use clawfoundry::text::{
    decimal_string, first_chars, push_decimal, push_signed_decimal, same_text, trim_trailing,
    truth_str,
};
use serde_json::Value;

fn json(text: &str) -> Value {
    serde_json::from_str(text).unwrap()
}

#[test]
fn numerals_are_decimal() {
    assert_eq!(decimal_string(0), "0");
    assert_eq!(decimal_string(7), "7");
    assert_eq!(decimal_string(10), "10");
    assert_eq!(decimal_string(1905), "1905");
    assert_eq!(decimal_string(u64::MAX), "18446744073709551615");
    let mut out = String::from("n=");
    push_decimal(&mut out, 42);
    assert_eq!(out, "n=42");
}

#[test]
fn signed_numerals_carry_their_sign() {
    let written = |i: i64| {
        let mut out = String::new();
        push_signed_decimal(&mut out, i);
        out
    };
    assert_eq!(written(0), "0");
    assert_eq!(written(-1), "-1");
    assert_eq!(written(250), "250");
    assert_eq!(written(i64::MAX), "9223372036854775807");
    assert_eq!(written(i64::MIN), "-9223372036854775808");
}

#[test]
fn texts_are_compared_and_cut() {
    assert!(same_text("", ""));
    assert!(same_text("safe", "safe"));
    assert!(!same_text("safe", "Safe"));
    assert!(!same_text("safe", "safe "));
    assert_eq!(first_chars("héllo", 0), "");
    assert_eq!(first_chars("héllo", 2), "hé");
    assert_eq!(first_chars("héllo", 5), "héllo");
    assert_eq!(first_chars("héllo", 9), "héllo");
    assert_eq!(truth_str(true), "true");
    assert_eq!(truth_str(false), "false");
}

#[test]
fn members_are_read_with_defaults() {
    let v = json(
        r#"{"s":"text","e":"","t":true,"f":false,"u":7,"big":18446744073709551615,
            "neg":-5,"x":1.5,"n":null,"a":[1],"o":{"s":"inner"}}"#,
    );
    assert_eq!(text_or(&v, "s", "d"), "text");
    assert_eq!(text_or(&v, "e", "d"), "");
    assert_eq!(text_or(&v, "u", "d"), "d");
    assert_eq!(text_or(&v, "missing", "d"), "d");
    assert_eq!(text_or(&json("[1]"), "s", "d"), "d");
    assert_eq!(text_or(&v["o"], "s", "d"), "inner");
    assert_eq!(text_at(&v, "s"), Some("text"));
    assert_eq!(text_at(&v, "n"), None);

    assert!(truth_or(&v, "t", false));
    assert!(!truth_or(&v, "f", true));
    assert!(truth_or(&v, "s", true));
    assert!(!truth_or(&v, "missing", false));

    assert_eq!(unsigned_or(&v, "u", 1), 7);
    assert_eq!(unsigned_or(&v, "big", 1), u64::MAX);
    assert_eq!(unsigned_or(&v, "neg", 1), 1);
    assert_eq!(unsigned_or(&v, "x", 1), 1);
    assert_eq!(unsigned_or(&v, "s", 1), 1);

    assert_eq!(signed_or(&v, "u", 1), 7);
    assert_eq!(signed_or(&v, "neg", 1), -5);
    assert_eq!(signed_or(&v, "big", 1), 1);
    assert_eq!(signed_or(&v, "x", 1), 1);
    assert_eq!(signed_or(&v, "missing", -9), -9);

    assert_eq!(text_or_null(Some("a")), json(r#""a""#));
    assert_eq!(text_or_null(None), Value::Null);
}

#[test]
fn trailing_characters_are_dropped() {
    assert_eq!(trim_trailing("", '/'), "");
    assert_eq!(trim_trailing("/", '/'), "");
    assert_eq!(trim_trailing("///", '/'), "");
    assert_eq!(trim_trailing("http://o:4000", '/'), "http://o:4000");
    assert_eq!(trim_trailing("http://o:4000/", '/'), "http://o:4000");
    assert_eq!(trim_trailing("/a//b///", '/'), "/a//b");
    assert_eq!(trim_trailing("héé", 'é'), "h");
    assert_eq!(trim_trailing("é/é", '/'), "é/é");
    for s in ["", "x", "x/", "//x//", "a/b/c/"] {
        assert_eq!(trim_trailing(s, '/'), s.trim_end_matches('/'));
    }
}

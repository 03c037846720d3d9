//! Tests for the JSON scalar and object rendering.

use edge_relay::json::{json_bool, json_opt_string, json_string, json_u64, render_object};
use edge_relay::text::{str_eq, u64_dec};

#[test]
fn string_plain() {
    assert_eq!(json_string("hello"), "\"hello\"");
}

#[test]
fn string_empty() {
    assert_eq!(json_string(""), "\"\"");
}

#[test]
fn string_escapes_quote_and_backslash() {
    assert_eq!(json_string("a\"b\\c"), "\"a\\\"b\\\\c\"");
}

#[test]
fn string_escapes_common_controls() {
    assert_eq!(json_string("a\nb\rc\td"), "\"a\\nb\\rc\\td\"");
}

#[test]
fn string_escapes_rare_controls_as_hex() {
    assert_eq!(json_string("\u{01}\u{1f}"), "\"\\u0001\\u001f\"");
}

#[test]
fn string_keeps_unicode() {
    assert_eq!(json_string("héllo ☺"), "\"héllo ☺\"");
}

#[test]
fn opt_string_none_is_null() {
    assert_eq!(json_opt_string(&None), "null");
}

#[test]
fn opt_string_some_is_quoted() {
    assert_eq!(json_opt_string(&Some(String::from("x"))), "\"x\"");
}

#[test]
fn bool_values() {
    assert_eq!(json_bool(true), "true");
    assert_eq!(json_bool(false), "false");
}

#[test]
fn number_zero() {
    assert_eq!(json_u64(0), "0");
}

#[test]
fn number_plain() {
    assert_eq!(json_u64(3600), "3600");
}

#[test]
fn number_largest() {
    assert_eq!(u64_dec(u64::MAX), "18446744073709551615");
}

#[test]
fn object_empty() {
    let fields: Vec<(String, String)> = Vec::new();
    assert_eq!(render_object(&fields), "{}");
}

#[test]
fn object_single_field() {
    let fields = vec![(String::from("k"), String::from("\"v\""))];
    assert_eq!(render_object(&fields), "{\"k\":\"v\"}");
}

#[test]
fn object_keeps_field_order() {
    let fields = vec![
        (String::from("a"), String::from("1")),
        (String::from("b"), String::from("2")),
        (String::from("c"), String::from("3")),
    ];
    assert_eq!(render_object(&fields), "{\"a\":1,\"b\":2,\"c\":3}");
}

#[test]
fn str_eq_agrees_with_equality() {
    assert!(str_eq("", ""));
    assert!(str_eq("/ping", "/ping"));
    assert!(!str_eq("/ping", "/pong"));
    assert!(!str_eq("/ping", "/pin"));
    assert!(str_eq("héllo", "héllo"));
    assert!(!str_eq("héllo", "hèllo"));
}

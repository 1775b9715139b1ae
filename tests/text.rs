use elasticsearch::body::encode_document;
use elasticsearch::naming::remove_dots;
use elasticsearch::raw::RawValue;
use elasticsearch::text::{decimal, join_with_commas, parse_integer, same_text, split_at_commas};

#[test]
fn split_and_join() {
    assert_eq!(split_at_commas("a,b"), vec!["a".to_string(), "b".to_string()]);
    assert_eq!(split_at_commas(""), vec!["".to_string()]);
    assert_eq!(split_at_commas(",x,"), vec!["".to_string(), "x".to_string(), "".to_string()]);
    assert_eq!(join_with_commas(&vec!["a".to_string(), "b".to_string(), "c".to_string()]), "a,b,c");
    assert_eq!(join_with_commas(&vec![]), "");
}

#[test]
fn decimal_text() {
    assert_eq!(decimal(0), "0");
    assert_eq!(decimal(1234567890), "1234567890");
    assert_eq!(decimal(-45), "-45");
    assert_eq!(decimal(i64::MIN), "-9223372036854775808");
    assert_eq!(decimal(i64::MAX), "9223372036854775807");
}

#[test]
fn integer_reading() {
    assert_eq!(parse_integer("007", -10, 10), Some(7));
    assert_eq!(parse_integer("-10", -10, 10), Some(-10));
    assert_eq!(parse_integer("11", -10, 10), None);
    assert_eq!(parse_integer("+", -10, 10), None);
    assert_eq!(parse_integer(" 1", -10, 10), None);
}

#[test]
fn text_helpers() {
    assert!(same_text("abc", "abc"));
    assert!(!same_text("abc", "abd"));
    assert_eq!(remove_dots("a.b.c"), "abc");
}

#[test]
fn document_encoding() {
    assert_eq!(encode_document(&RawValue::Int(-3)), "-3");
    assert_eq!(encode_document(&RawValue::Str("q\"x".to_string())), "\"q\\\"x\"");
    assert_eq!(encode_document(&RawValue::Bool(false)), "false");
    let d = RawValue::Hash(vec![(
        "k".to_string(),
        RawValue::Array(vec![RawValue::Int(1), RawValue::Str("v".to_string())]),
    )]);
    assert_eq!(encode_document(&d), "{\"k\":[1,\"v\"]}");
}

//! Coercion of raw strings into typed comparison values.

use mocked::value::Value;

#[test]
fn test_from_string_with_integer() {
    let v = Value::coerce("42");
    assert_eq!(v, Value::Integer(42));
}

#[test]
fn test_from_string_with_numeric() {
    let v = Value::coerce("10.5");
    assert_eq!(v, Value::Numeric(String::from("10.5")));
}

#[test]
fn test_from_string_with_string() {
    let v = Value::coerce("hello");
    assert_eq!(v, Value::Str(String::from("hello")));
}

#[test]
fn coerce_accepts_leading_plus() {
    assert_eq!(Value::coerce("+7"), Value::Integer(7));
}

#[test]
fn coerce_accepts_negative() {
    assert_eq!(Value::coerce("-13"), Value::Integer(-13));
}

#[test]
fn coerce_handles_i64_extremes() {
    assert_eq!(
        Value::coerce("9223372036854775807"),
        Value::Integer(9223372036854775807)
    );
    assert_eq!(
        Value::coerce("-9223372036854775808"),
        Value::Integer(-9223372036854775808)
    );
}

#[test]
fn coerce_overflowing_integer_becomes_numeric() {
    assert_eq!(
        Value::coerce("9223372036854775808"),
        Value::Numeric(String::from("9223372036854775808"))
    );
}

#[test]
fn coerce_canonicalizes_numeric_text() {
    // "10.50" and "10.5" denote the same number and coerce equal
    assert_eq!(Value::coerce("10.50"), Value::Numeric(String::from("10.5")));
    assert_eq!(Value::coerce("10.50"), Value::coerce("10.5"));
}

#[test]
fn coerce_scientific_notation_is_numeric() {
    assert_eq!(Value::coerce("2.5e3"), Value::coerce("2500.0"));
}

#[test]
fn coerce_empty_string_is_string() {
    assert_eq!(Value::coerce(""), Value::Str(String::new()));
}

#[test]
fn coerce_sign_alone_is_string() {
    assert_eq!(Value::coerce("-"), Value::Str(String::from("-")));
}

#[test]
fn integer_and_numeric_never_equal() {
    // variant-sensitive equality: 10 as an integer is not 10.0
    assert_ne!(Value::coerce("10"), Value::coerce("10.0"));
    assert_eq!(Value::coerce("10"), Value::Integer(10));
}

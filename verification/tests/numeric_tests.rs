use moltbook_cli::json::JsonValue;
use moltbook_cli::numeric::{
    deserialize_option_string_or_i64, deserialize_option_string_or_u64, deserialize_string_or_i64,
    deserialize_string_or_u64, parse_i64, parse_u64, u64_to_dec,
};

#[test]
fn test_u64_to_dec() {
    assert_eq!(u64_to_dec(0), "0");
    assert_eq!(u64_to_dec(7), "7");
    assert_eq!(u64_to_dec(30), "30");
    assert_eq!(u64_to_dec(429), "429");
    assert_eq!(u64_to_dec(1000), "1000");
    assert_eq!(u64_to_dec(u64::MAX), "18446744073709551615");
}

#[test]
fn test_parse_u64() {
    assert_eq!(parse_u64("42"), Some(42));
    assert_eq!(parse_u64("+42"), Some(42));
    assert_eq!(parse_u64("0"), Some(0));
    assert_eq!(parse_u64("007"), Some(7));
    assert_eq!(parse_u64("18446744073709551615"), Some(u64::MAX));
    assert_eq!(parse_u64("18446744073709551616"), None);
    assert_eq!(parse_u64("184467440737095516250"), None);
    assert_eq!(parse_u64(""), None);
    assert_eq!(parse_u64("+"), None);
    assert_eq!(parse_u64("-1"), None);
    assert_eq!(parse_u64("4x2"), None);
    assert_eq!(parse_u64(" 42"), None);
}

#[test]
fn test_parse_u64_agrees_with_std() {
    let cases = [
        "0", "9", "10", "+3", "", "+", "-0", "99999999999999999999", "abc", "12a",
        "18446744073709551615", "18446744073709551616",
    ];
    for s in cases {
        assert_eq!(parse_u64(s), s.parse::<u64>().ok(), "case {:?}", s);
    }
}

#[test]
fn test_parse_i64() {
    assert_eq!(parse_i64("-5"), Some(-5));
    assert_eq!(parse_i64("+5"), Some(5));
    assert_eq!(parse_i64("5"), Some(5));
    assert_eq!(parse_i64("9223372036854775807"), Some(i64::MAX));
    assert_eq!(parse_i64("-9223372036854775808"), Some(i64::MIN));
    assert_eq!(parse_i64("9223372036854775808"), None);
    assert_eq!(parse_i64("-9223372036854775809"), None);
    assert_eq!(parse_i64(""), None);
    assert_eq!(parse_i64("-"), None);
    assert_eq!(parse_i64("--3"), None);
}

#[test]
fn test_parse_i64_agrees_with_std() {
    let cases = [
        "0", "-1", "+1", "-", "+", "", "9223372036854775807", "-9223372036854775808",
        "9223372036854775808", "-9223372036854775809", "1e3",
    ];
    for s in cases {
        assert_eq!(parse_i64(s), s.parse::<i64>().ok(), "case {:?}", s);
    }
}

#[test]
fn test_string_or_u64() {
    assert_eq!(deserialize_string_or_u64(&JsonValue::UInt(12)), Some(12));
    assert_eq!(
        deserialize_string_or_u64(&JsonValue::Text("12".to_string())),
        Some(12)
    );
    assert_eq!(
        deserialize_string_or_u64(&JsonValue::Text("x".to_string())),
        None
    );
    assert_eq!(deserialize_string_or_u64(&JsonValue::Int(-1)), None);
    assert_eq!(deserialize_string_or_u64(&JsonValue::Bool(true)), None);
    assert_eq!(deserialize_string_or_u64(&JsonValue::Null), None);
}

#[test]
fn test_string_or_i64() {
    assert_eq!(deserialize_string_or_i64(&JsonValue::Int(-3)), Some(-3));
    assert_eq!(deserialize_string_or_i64(&JsonValue::UInt(3)), Some(3));
    assert_eq!(
        deserialize_string_or_i64(&JsonValue::UInt(u64::MAX)),
        None
    );
    assert_eq!(
        deserialize_string_or_i64(&JsonValue::Text("-7".to_string())),
        Some(-7)
    );
    assert_eq!(deserialize_string_or_i64(&JsonValue::Frac), None);
}

#[test]
fn test_option_string_or_u64() {
    assert_eq!(
        deserialize_option_string_or_u64(&JsonValue::Null),
        Some(None)
    );
    assert_eq!(
        deserialize_option_string_or_u64(&JsonValue::UInt(9)),
        Some(Some(9))
    );
    assert_eq!(
        deserialize_option_string_or_u64(&JsonValue::Text("bad".to_string())),
        None
    );
}

#[test]
fn test_option_string_or_i64() {
    assert_eq!(
        deserialize_option_string_or_i64(&JsonValue::Null),
        Some(None)
    );
    assert_eq!(
        deserialize_option_string_or_i64(&JsonValue::Text("-2".to_string())),
        Some(Some(-2))
    );
    assert_eq!(
        deserialize_option_string_or_i64(&JsonValue::Bool(false)),
        None
    );
}

use turso_pg::error::PgError;
use turso_pg::text::{
    blank, chars_of, contains_chars, decimal_chars, escape_single_quotes, parse_i64, trim,
};

#[test]
fn text_trim_unicode_white_space() {
    assert_eq!(trim("\u{3000} a b \u{a0}\n"), "a b");
    assert_eq!(trim("x"), "x");
    assert!(blank(" \t\u{2028}"));
    assert!(!blank(" . "));
}

#[test]
fn text_escape_quotes() {
    assert_eq!(escape_single_quotes("it's 'x'"), "it''s ''x''");
}

#[test]
fn text_contains() {
    assert!(contains_chars(&chars_of("abcabd"), &chars_of("abd")));
    assert!(!contains_chars(&chars_of("ab"), &chars_of("abc")));
    assert!(contains_chars(&chars_of("ab"), &chars_of("")));
}

#[test]
fn text_decimal_and_parse() {
    assert_eq!(decimal_chars(0).into_iter().collect::<String>(), "0");
    assert_eq!(decimal_chars(1203).into_iter().collect::<String>(), "1203");
    assert_eq!(parse_i64(&chars_of("-0")), Some(0));
    assert_eq!(parse_i64(&chars_of("12a")), None);
    assert_eq!(parse_i64(&chars_of(" 1")), None);
}

#[test]
fn error_message_text() {
    assert_eq!(PgError::InvalidArgument("x".to_string()).message(), "x");
    assert_eq!(PgError::ParseError("y".to_string()).message(), "y");
}

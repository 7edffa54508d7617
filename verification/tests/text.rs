use query_engine::identifier::{is_valid_identifier, sanitize};
use query_engine::error::QueryError;
use query_engine::text::{
    byte_length, chars_of, decimal_text, join_texts, read_i64, same_text, signed_decimal_text,
    string_of, strip_whitespace, to_lowered,
};

#[test]
fn decimal_numerals() {
    assert_eq!(decimal_text(0), "0");
    assert_eq!(decimal_text(7), "7");
    assert_eq!(decimal_text(10), "10");
    assert_eq!(decimal_text(4294967295), "4294967295");
    assert_eq!(decimal_text(u64::MAX), "18446744073709551615");
}

#[test]
fn signed_numerals() {
    assert_eq!(signed_decimal_text(0), "0");
    assert_eq!(signed_decimal_text(42), "42");
    assert_eq!(signed_decimal_text(-1), "-1");
    assert_eq!(signed_decimal_text(i64::MAX), "9223372036854775807");
    assert_eq!(signed_decimal_text(i64::MIN), "-9223372036854775808");
}

#[test]
fn reading_integers() {
    assert_eq!(read_i64("0"), Some(0));
    assert_eq!(read_i64("42"), Some(42));
    assert_eq!(read_i64("+42"), Some(42));
    assert_eq!(read_i64("-42"), Some(-42));
    assert_eq!(read_i64("-0"), Some(0));
    assert_eq!(read_i64("0007"), Some(7));
    assert_eq!(read_i64("9223372036854775807"), Some(i64::MAX));
    assert_eq!(read_i64("-9223372036854775808"), Some(i64::MIN));
    assert_eq!(read_i64("000000000000000000000000000000000000000012"), Some(12));
}

#[test]
fn reading_integers_refuses_what_is_no_numeral() {
    for bad in [
        "", "+", "-", " 1", "1 ", "1_000", "1.0", "1e3", "0x10", "--1", "+-1", "abc", "１２",
        "9223372036854775808", "-9223372036854775809", "99999999999999999999999999",
    ] {
        assert_eq!(read_i64(bad), None, "{:?}", bad);
    }
}

#[test]
fn reading_integers_agrees_with_the_standard_parser() {
    for text in ["17", "-17", "+0", "08", "", "-", "12a", "9223372036854775807", "9223372036854775808"]
    {
        assert_eq!(read_i64(text), text.parse::<i64>().ok(), "{:?}", text);
    }
}

#[test]
fn numerals_are_read_back() {
    for n in [0i64, 1, -1, 10, -10, 123456789, i64::MAX, i64::MIN] {
        assert_eq!(read_i64(&signed_decimal_text(n)), Some(n));
    }
}

#[test]
fn characters_and_strings() {
    assert_eq!(chars_of("aé$"), vec!['a', 'é', '$']);
    assert_eq!(string_of(&vec!['x', 'ÿ', '1']), "xÿ1");
    assert_eq!(chars_of(""), Vec::<char>::new());
    assert!(same_text("abc", "abc"));
    assert!(!same_text("abc", "abd"));
    assert!(!same_text("abc", "ab"));
    assert!(same_text("", ""));
    assert_eq!(byte_length("aé"), 3);
}

#[test]
fn lower_case_touches_ascii_capitals_only() {
    assert_eq!(to_lowered("Auth_Tokens9"), "auth_tokens9");
    assert_eq!(to_lowered("ÀZ[a"), "Àz[a");
    assert_eq!(to_lowered("@AZ["), "@az[");
}

#[test]
fn white_space_is_removed() {
    assert_eq!(strip_whitespace(" a\tb\nc\r d\u{b}\u{c}"), "abcd");
    assert_eq!(strip_whitespace("a\u{a0}b\u{2003}c\u{3000}d\u{85}e\u{1680}f"), "abcdef");
    assert_eq!(strip_whitespace("a\u{200b}b"), "a\u{200b}b");
    assert_eq!(strip_whitespace("   "), "");
    let every: String = (0..=0x3000u32).filter_map(char::from_u32).collect();
    let expected: String = every.split_whitespace().collect();
    assert_eq!(strip_whitespace(&every), expected);
}

#[test]
fn joining() {
    let parts = vec!["a".to_string(), "".to_string(), "c".to_string()];
    assert_eq!(join_texts(&parts, ", "), "a, , c");
    assert_eq!(join_texts(&vec!["only".to_string()], ", "), "only");
    assert_eq!(join_texts(&Vec::new(), ", "), "");
}

#[test]
fn identifiers() {
    for good in ["a", "Z", "0", "_", "auth_tokens", "Users2", "9lives", "__"] {
        assert!(is_valid_identifier(good), "{:?}", good);
        assert_eq!(sanitize(good), Ok(good.to_string()));
    }
    for bad in ["", " ", "a b", "a-b", "a.b", "a;", "a'", "a\"", "$1", "naïve", "a\n", "表"] {
        assert!(!is_valid_identifier(bad), "{:?}", bad);
        assert_eq!(sanitize(bad), Err(QueryError::InvalidIdentifier(bad.to_string())));
    }
}

use syncho::text::{
    chars_of, collapse_whitespace, contains, find_chars, i64_to_string, is_whitespace,
    join, parse_u64, same_text, string_of, trim, u128_to_string,
};

#[test]
fn renders_unsigned_numbers_in_decimal() {
    assert_eq!(u128_to_string(0), "0");
    assert_eq!(u128_to_string(7), "7");
    assert_eq!(u128_to_string(1234567), "1234567");
    assert_eq!(u128_to_string(u128::MAX), u128::MAX.to_string());
}

#[test]
fn renders_signed_numbers_in_decimal() {
    assert_eq!(i64_to_string(0), "0");
    assert_eq!(i64_to_string(-42), "-42");
    assert_eq!(i64_to_string(98765), "98765");
    assert_eq!(i64_to_string(i64::MIN), i64::MIN.to_string());
    assert_eq!(i64_to_string(i64::MAX), i64::MAX.to_string());
}

#[test]
fn parses_like_std_u64_from_str() {
    for s in [
        "0", "42", "+42", "007", "", "+", "-1", "-0", "12a", " 1", "1 ",
        "18446744073709551615", "18446744073709551616", "99999999999999999999", "++1",
    ] {
        assert_eq!(parse_u64(s), s.parse::<u64>().ok(), "input {:?}", s);
    }
}

#[test]
fn decimal_round_trip_on_values() {
    for n in [0u64, 1, 9, 10, 99, 100, 123456789, u64::MAX] {
        assert_eq!(parse_u64(&u128_to_string(n as u128)), Some(n));
    }
}

#[test]
fn whitespace_matches_std() {
    for c in ['\t', '\n', ' ', 'a', '\u{85}', '\u{A0}', '\u{2003}', '\u{200B}', '\u{3000}', 'Z', '-'] {
        assert_eq!(is_whitespace(c), c.is_whitespace(), "char {:?}", c);
    }
}

#[test]
fn trims_like_std() {
    for s in ["", "  ", " a b ", "\u{3000}x\t", "abc", "\n\ny"] {
        assert_eq!(trim(s), s.trim());
    }
}

#[test]
fn finds_first_occurrence() {
    let s = chars_of("abcabc");
    assert_eq!(find_chars(&s, &chars_of("bc")), Some(1));
    assert_eq!(find_chars(&s, &chars_of("")), Some(0));
    assert_eq!(find_chars(&s, &chars_of("cb")), None);
    assert_eq!(find_chars(&s, &chars_of("abcabcd")), None);
    assert!(contains("spotify", "tif"));
    assert!(!contains("spotify", "cider"));
    assert!(contains("", ""));
}

#[test]
fn joins_and_concatenates() {
    let parts = vec!["a".to_string(), "bc".to_string(), "d".to_string()];
    assert_eq!(join(&parts, ", "), "a, bc, d");
    assert_eq!(join(&parts, ""), "abcd");
    assert_eq!(join(&Vec::new(), ", "), "");
}

#[test]
fn collapses_whitespace_like_split_whitespace_join() {
    for s in ["", "   ", " hello   world ", "a\tb\nc", "one", " x "] {
        let expected = s.split_whitespace().collect::<Vec<_>>().join(" ");
        assert_eq!(string_of(&collapse_whitespace(&chars_of(s))), expected);
    }
}

#[test]
fn compares_text() {
    assert!(same_text("abc", "abc"));
    assert!(!same_text("abc", "abd"));
    assert!(!same_text("abc", "ab"));
}

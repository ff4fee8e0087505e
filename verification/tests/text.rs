use confhub::text::{chars_of, contains_id, parse_i32, push_decimal, push_signed_decimal, str_eq};

fn string_from_chars(v: &[char]) -> String {
    v.iter().collect()
}

#[test]
fn parse_i32_accepts_plain_and_signed_numbers() {
    assert_eq!(parse_i32("42"), Some(42));
    assert_eq!(parse_i32("-7"), Some(-7));
    assert_eq!(parse_i32("+5"), Some(5));
    assert_eq!(parse_i32("007"), Some(7));
    assert_eq!(parse_i32("0"), Some(0));
    assert_eq!(parse_i32("-0"), Some(0));
}

#[test]
fn parse_i32_range_edges() {
    assert_eq!(parse_i32("2147483647"), Some(i32::MAX));
    assert_eq!(parse_i32("-2147483648"), Some(i32::MIN));
    assert_eq!(parse_i32("2147483648"), None);
    assert_eq!(parse_i32("-2147483649"), None);
    assert_eq!(parse_i32("99999999999999999999"), None);
}

#[test]
fn parse_i32_rejects_what_std_rejects() {
    for s in ["", "+", "-", " 1", "1 ", "1a", "+-1", "--1", "1_000", "0x10", "\u{0663}"] {
        assert_eq!(parse_i32(s), None, "input {:?}", s);
        assert!(s.parse::<i32>().is_err());
    }
}

#[test]
fn parse_i32_agrees_with_std() {
    for s in ["12", "-12", "+0", "2147483647", "-2147483648", "2147483648", "abc", "", "-", "+00042"] {
        assert_eq!(parse_i32(s), s.parse::<i32>().ok(), "input {:?}", s);
    }
}

#[test]
fn decimal_spelling() {
    let mut v: Vec<char> = Vec::new();
    push_decimal(&mut v, 0);
    push_decimal(&mut v, 1234567890);
    push_signed_decimal(&mut v, -42);
    push_signed_decimal(&mut v, i32::MIN);
    push_decimal(&mut v, u64::MAX);
    assert_eq!(string_from_chars(&v), "01234567890-42-214748364818446744073709551615");
}

#[test]
fn decimal_round_trips_through_parse() {
    for n in [0, 1, -1, 9, 10, -10, 123456, i32::MAX, i32::MIN] {
        let mut v: Vec<char> = Vec::new();
        push_signed_decimal(&mut v, n);
        assert_eq!(parse_i32(&string_from_chars(&v)), Some(n));
    }
}

#[test]
fn string_helpers() {
    assert_eq!(chars_of("añb"), vec!['a', 'ñ', 'b']);
    assert!(str_eq("secret", "secret"));
    assert!(!str_eq("secret", "secreT"));
    assert!(!str_eq("secret", "secret "));
    assert!(str_eq("", ""));
    assert!(contains_id(&vec![3, 5, 8], 5));
    assert!(!contains_id(&vec![3, 5, 8], 4));
    assert!(!contains_id(&vec![], 4));
}

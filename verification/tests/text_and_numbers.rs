use sct_reader::number::{
    parse_decimal, parse_digits, parse_i16, parse_i32, parse_i8, parse_u16, parse_u32, parse_u8,
    parse_unsigned,
};
use sct_reader::text::{
    before, chars, find, is_literal, is_whitespace, join, same, split, split_whitespace,
    starts_with, string, trim_end, trim_matches,
};
use sct_reader::loaders::euroscope::waypoint::Fix;
use sct_reader::loaders::euroscope::position::Position;

fn c(s: &str) -> Vec<char> {
    s.chars().collect()
}

fn strings(parts: Vec<&[char]>) -> Vec<String> {
    parts.into_iter().map(|p| p.iter().collect()).collect()
}

#[test]
fn chars_and_string_are_inverse() {
    assert_eq!(chars("héllo ✈"), c("héllo ✈"));
    assert_eq!(chars(""), Vec::<char>::new());
    assert_eq!(string(&c("héllo ✈")), "héllo ✈");
    assert_eq!(string(&[]), "");
    assert_eq!(string(&['a', 'b']), "ab");
}

#[test]
fn slices_are_compared_by_their_characters() {
    assert!(same(&c("abc"), &c("abc")));
    assert!(!same(&c("abc"), &c("abd")));
    assert!(!same(&c("abc"), &c("ab")));
    assert!(same(&[], &[]));
    assert!(is_literal(&c("OFFSET"), "OFFSET"));
    assert!(!is_literal(&c("OFFSET "), "OFFSET"));
    assert!(starts_with(&c("OFFSET 1"), "OFFSET"));
    assert!(starts_with(&c("OFFSET"), ""));
    assert!(!starts_with(&c("OFF"), "OFFSET"));
    assert!(!starts_with(&c(" OFFSET"), "OFFSET"));
}

#[test]
fn white_space_is_what_the_standard_library_calls_white_space() {
    for n in 0u32..=0x3100 {
        if let Some(ch) = char::from_u32(n) {
            assert_eq!(is_whitespace(ch), ch.is_whitespace(), "{n:#x}");
        }
    }
    assert!(!is_whitespace('\u{FEFF}'));
    assert!(!is_whitespace('\u{10FFFF}'));
}

#[test]
fn split_whitespace_as_the_standard_library_does() {
    for text in [
        "",
        " ",
        "a",
        "  a  ",
        "a b",
        "\ta\u{A0}b\u{3000}\u{2003}c\r\n",
        "AoR Milano ACC N043.34.13.000   E008.19.18.199",
        "x\u{85}y\u{1680}z",
    ] {
        let expected: Vec<String> = text.split_whitespace().map(|w| w.to_string()).collect();
        assert_eq!(strings(split_whitespace(&c(text))), expected, "{text:?}");
    }
}

#[test]
fn split_as_the_standard_library_does() {
    for text in ["", ":", "a", "a:b", ":a:", "a::b", "::", "10:20::hello", "a:b:c:d:e"] {
        let expected: Vec<String> = text.split(':').map(|w| w.to_string()).collect();
        assert_eq!(strings(split(&c(text), ':')), expected, "{text:?}");
    }
    assert_eq!(strings(split(&c("N043.34.13.000"), '.')), vec!["N043", "34", "13", "000"]);
}

#[test]
fn before_the_first_separator() {
    assert_eq!(string(before(&c("abc;def;ghi"), ';')), "abc");
    assert_eq!(string(before(&c("abc"), ';')), "abc");
    assert_eq!(string(before(&c(";abc"), ';')), "");
    assert_eq!(string(before(&c(""), ';')), "");
}

#[test]
fn trimming() {
    for text in ["", " ", "a", " a ", "a \t\r\n", "  a b  \u{3000}", "\u{A0}"] {
        assert_eq!(string(trim_end(&c(text))), text.trim_end(), "{text:?}");
    }
    for text in ["", "\"", "\"\"", "\"a\"", "\"\"a\"b\"\"", "a\"", "\"a", "a\"b", " \"a\" "] {
        assert_eq!(string(trim_matches(&c(text), '"')), text.trim_matches('"'), "{text:?}");
    }
}

#[test]
fn joining() {
    let a = c("AoR");
    let b = c("Milano");
    let d = c("ACC");
    let parts: Vec<&[char]> = vec![&a, &b, &d];
    assert_eq!(string(&join(&parts, 0, 3, ' ')), "AoR Milano ACC");
    assert_eq!(string(&join(&parts, 1, 3, ' ')), "Milano ACC");
    assert_eq!(string(&join(&parts, 1, 2, '_')), "Milano");
    assert_eq!(string(&join(&parts, 2, 2, ' ')), "");
    let e: Vec<char> = Vec::new();
    let with_empty: Vec<&[char]> = vec![&e, &a, &e];
    assert_eq!(string(&join(&with_empty, 0, 3, '-')), "-AoR-");
}

#[test]
fn finding_by_name() {
    let fix = |name: &str| Fix {
        identifier: name.to_string(),
        position: Position::new(0, 0).validate().unwrap(),
    };
    let fixes = vec![fix("A"), fix("B"), fix("A"), fix("b")];
    assert_eq!(find(&fixes, &"A".to_string()), Some(0));
    assert_eq!(find(&fixes, &"B".to_string()), Some(1));
    assert_eq!(find(&fixes, &"b".to_string()), Some(3));
    assert_eq!(find(&fixes, &"C".to_string()), None);
    assert_eq!(find(&Vec::<Fix>::new(), &"A".to_string()), None);
}

#[test]
fn unsigned_numbers_as_the_standard_library_reads_them() {
    for text in [
        "", "+", "-", "0", "00", "007", "+5", "-5", "-0", "255", "256", "65535", "65536",
        "4294967295", "4294967296", "99999999999999999999999", "1 ", " 1", "1.0", "١", "+-1", "++1",
        "12a", "a12",
    ] {
        assert_eq!(parse_u8(&c(text)), text.parse::<u8>().ok(), "{text:?}");
        assert_eq!(parse_u16(&c(text)), text.parse::<u16>().ok(), "{text:?}");
        assert_eq!(parse_u32(&c(text)), text.parse::<u32>().ok(), "{text:?}");
    }
    assert_eq!(parse_unsigned(&c("36"), 36), Some(36));
    assert_eq!(parse_unsigned(&c("37"), 36), None);
    assert_eq!(parse_digits(&c("+3"), 36), None);
    assert_eq!(parse_digits(&c("03"), 36), Some(3));
}

#[test]
fn signed_numbers_as_the_standard_library_reads_them() {
    for text in [
        "", "+", "-", "0", "-0", "+0", "127", "128", "-128", "-129", "32767", "32768", "-32768",
        "-32769", "2147483647", "2147483648", "-2147483648", "-2147483649", "--1", "-+1", "+-1",
        "1-", "- 1", "0012", "-0012", "99999999999999999999",
    ] {
        assert_eq!(parse_i8(&c(text)), text.parse::<i8>().ok(), "{text:?}");
        assert_eq!(parse_i16(&c(text)), text.parse::<i16>().ok(), "{text:?}");
        assert_eq!(parse_i32(&c(text)), text.parse::<i32>().ok(), "{text:?}");
    }
}

#[test]
fn decimal_numbers_in_billionths() {
    assert_eq!(parse_decimal(&c("0")), Some(0));
    assert_eq!(parse_decimal(&c("1")), Some(1_000_000_000));
    assert_eq!(parse_decimal(&c("-1")), Some(-1_000_000_000));
    assert_eq!(parse_decimal(&c("+1.5")), Some(1_500_000_000));
    assert_eq!(parse_decimal(&c("0.000000001")), Some(1));
    assert_eq!(parse_decimal(&c("0.0000000009")), Some(0));
    assert_eq!(parse_decimal(&c("-0.123456789123")), Some(-123_456_789));
    assert_eq!(parse_decimal(&c("113.600")), Some(113_600_000_000));
    assert_eq!(parse_decimal(&c(".25")), Some(250_000_000));
    assert_eq!(parse_decimal(&c("25.")), Some(25_000_000_000));
    assert_eq!(parse_decimal(&c("-4294967295.999999999")), Some(-4_294_967_295_999_999_999));
    for text in ["", ".", "-", "+", "-.", "1e5", "1,5", "4294967296", "1.2.3", "1.-2", "--1", "nan", "inf", "0.12x"] {
        assert_eq!(parse_decimal(&c(text)), None, "{text:?}");
    }
}

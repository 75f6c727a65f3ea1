use surn::text::{
    byte_length, chars_of, clone_strings, decimal_string, is_digit, is_letter, is_whitespace,
    join, push_decimal, repeat_char, str_eq, string_of, trim_start, utf8_width,
};

fn every_char() -> impl Iterator<Item = char> {
    (0u32..=0x10FFFF).filter_map(char::from_u32)
}

#[test]
fn whitespace_is_the_white_space_property() {
    for c in every_char() {
        assert_eq!(is_whitespace(c), c.is_whitespace(), "{:?}", c);
    }
}

#[test]
fn digits_and_letters() {
    for c in every_char() {
        assert_eq!(is_digit(c), c.is_digit(10), "{:?}", c);
        assert_eq!(is_letter(c), c.is_ascii_alphabetic(), "{:?}", c);
    }
}

#[test]
fn widths_in_bytes() {
    for c in every_char() {
        assert_eq!(utf8_width(c), c.len_utf8(), "{:?}", c);
    }
    assert_eq!(byte_length("aé€😀"), 10);
}

#[test]
fn decimal_numerals() {
    for n in [0usize, 1, 9, 10, 11, 99, 100, 101, 12345, usize::MAX] {
        assert_eq!(decimal_string(n), format!("{}", n));
    }
    let mut s = "n=".to_string();
    push_decimal(&mut s, 2026);
    assert_eq!(s, "n=2026");
}

#[test]
fn string_helpers() {
    assert!(str_eq("a€", "a€"));
    assert!(!str_eq("a", "b"));
    assert!(!str_eq("a", "ab"));
    assert!(str_eq("", ""));
    assert_eq!(chars_of("aé"), vec!['a', 'é']);
    assert_eq!(string_of(&vec!['a', 'b', 'c'], 1, 3), "bc");
    assert_eq!(string_of(&vec!['a'], 1, 1), "");
    assert_eq!(trim_start(" \t\u{3000}a b "), "a b ");
    assert_eq!(trim_start("   "), "");
    assert_eq!(repeat_char('-', 0), "");
    assert_eq!(repeat_char('-', 4), "----");
    assert_eq!(join(&vec![], ", "), "");
    assert_eq!(join(&vec!["a".to_string()], ", "), "a");
    assert_eq!(join(&vec!["a".to_string(), "b".to_string(), "c".to_string()], ", "), "a, b, c");
    assert_eq!(clone_strings(&vec!["x".to_string(), "y".to_string()]), vec!["x", "y"]);
}

use akkadia::rpc::{decimal, parse_usize, success_text};
use akkadia::text::{chars_of, contains_text, find_text, same_text};

#[test]
fn numbers_are_written_in_base_ten() {
    assert_eq!(decimal(0), "0");
    assert_eq!(decimal(7), "7");
    assert_eq!(decimal(10), "10");
    assert_eq!(decimal(12345), "12345");
    assert_eq!(decimal(907), "907");
    assert_eq!(decimal(usize::MAX), usize::MAX.to_string());
}

#[test]
fn numbers_are_read_in_base_ten() {
    assert_eq!(parse_usize("0"), Some(0));
    assert_eq!(parse_usize("42"), Some(42));
    assert_eq!(parse_usize("007"), Some(7));
    assert_eq!(parse_usize("+5"), Some(5));
    assert_eq!(parse_usize(&usize::MAX.to_string()), Some(usize::MAX));
}

#[test]
fn other_texts_are_no_numbers() {
    assert_eq!(parse_usize(""), None);
    assert_eq!(parse_usize("+"), None);
    assert_eq!(parse_usize("-1"), None);
    assert_eq!(parse_usize("abc"), None);
    assert_eq!(parse_usize("12a"), None);
    assert_eq!(parse_usize("1 2"), None);
    assert_eq!(parse_usize(" 1"), None);
    assert_eq!(parse_usize("++1"), None);
    assert_eq!(parse_usize("1+"), None);
    assert_eq!(parse_usize("0x10"), None);
    assert_eq!(parse_usize("\u{0661}"), None);
    assert_eq!(parse_usize("340282366920938463463374607431768211456"), None);
}

#[test]
fn reading_a_number_agrees_with_std() {
    for text in ["0", "1", "+1", "-0", "", "+", "99999999999999999999", "18446744073709551615", "18446744073709551616", "0000000000000000000000001", "12_3", "٣"] {
        assert_eq!(parse_usize(text), usize::from_str_radix(text, 10).ok(), "{:?}", text);
    }
}

#[test]
fn a_result_is_wrapped_in_its_envelope() {
    assert_eq!(success_text(11, "[1,2]"), r#"{"jsonrpc":"2.0","id":11,"result":[1,2]}"#);
    assert_eq!(success_text(0, "null"), r#"{"jsonrpc":"2.0","id":0,"result":null}"#);
}

#[test]
fn texts_are_compared_by_their_characters() {
    assert!(same_text("exit", "exit"));
    assert!(same_text("", ""));
    assert!(!same_text("exit", "exit "));
    assert!(!same_text("Exit", "exit"));
}

#[test]
fn the_characters_of_a_text_are_counted_once_each() {
    assert_eq!(chars_of("aé∑😀"), vec!['a', 'é', '∑', '😀']);
    assert_eq!(chars_of(""), Vec::<char>::new());
}

#[test]
fn a_text_is_found_at_its_first_position() {
    assert_eq!(find_text("fn main() -> Int {", "Int"), Some(13));
    assert_eq!(find_text("abcabc", "bc"), Some(1));
    assert_eq!(find_text("abc", ""), Some(0));
    assert_eq!(find_text("", ""), Some(0));
    assert_eq!(find_text("abc", "abcd"), None);
    assert_eq!(find_text("abc", "x"), None);
    assert_eq!(find_text("aab", "ab"), Some(1));
    assert_eq!(find_text("ééx", "x"), Some(2));
    assert!(contains_text("capabilities are here", "capabilities"));
    assert!(!contains_text("capabilities", "capability"));
}

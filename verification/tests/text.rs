use droidbridge::bytes::{
    contains_byte, copied_range, push_bytes, push_le16, push_le32, push_word16, push_word32,
    read_word16, read_word32, same_bytes, ByteOrder,
};
use droidbridge::digest::sha256_text;
use droidbridge::text::{
    chars_of, contains_char, contains_double, decimal_text, ends_with, find_char, hex_digit,
    hex_of, joined, one_of, owned_texts, parse_unsigned, same, signed_text, starts_with, text_of,
};
use droidbridge::words::{find_word, trimmed_text};

#[test]
fn numbers_are_spelled_and_read() {
    assert_eq!(decimal_text(0), "0");
    assert_eq!(decimal_text(u64::MAX), "18446744073709551615");
    assert_eq!(signed_text(i32::MIN), "-2147483648");
    assert_eq!(signed_text(42), "42");
    let parse = |text: &str, radix: u64, max: u64| {
        parse_unsigned(chars_of(text).as_slice(), radix, max)
    };
    assert_eq!(parse("255", 10, 255), Some(255));
    assert_eq!(parse("256", 10, 255), None);
    assert_eq!(parse("+7", 10, 255), Some(7));
    assert_eq!(parse("fF", 16, 255), Some(255));
    assert_eq!(parse("", 10, 255), None);
    assert_eq!(parse("+", 10, 255), None);
    assert_eq!(parse("1a", 10, 255), None);
    for number in [0u64, 9, 10, 1_234_567_890_123] {
        assert_eq!(parse(&decimal_text(number), 10, u64::MAX), Some(number));
    }
}

#[test]
fn texts_are_compared_by_their_characters() {
    assert!(same("\u{e9}a", "\u{e9}a"));
    assert!(!same("a", "A"));
    assert!(one_of("b", &["a", "b"]));
    assert!(!one_of("c", &["a", "b"]));
    assert!(starts_with("abc", "ab") && !starts_with("abc", "b"));
    assert!(ends_with("abc", "bc") && !ends_with("abc", "ab"));
    assert!(contains_char("a.b", '.') && !contains_char("ab", '.'));
    assert!(contains_double("a..b", '.') && !contains_double("a.b.", '.'));
    assert_eq!(find_char(chars_of("a:b:c").as_slice(), ':'), 1);
    assert_eq!(text_of(&['a', 'b']), "ab");
    assert_eq!(joined("a", "b"), "ab");
    assert_eq!(owned_texts(&["a", "b"]), vec!["a".to_owned(), "b".to_owned()]);
}

#[test]
fn words_are_separated_by_white_space() {
    let chars = chars_of("  one\ttwo\u{2003}three ");
    let word = |n: usize| {
        find_word(chars.as_slice(), 0, n).map(|(start, end)| text_of(&chars[start..end]))
    };
    assert_eq!(word(0).as_deref(), Some("one"));
    assert_eq!(word(1).as_deref(), Some("two"));
    assert_eq!(word(2).as_deref(), Some("three"));
    assert_eq!(word(3), None);
    assert_eq!(trimmed_text("\u{a0} a b \n"), "a b");
    assert_eq!(trimmed_text(" \t"), "");
}

#[test]
fn bytes_are_written_low_end_first() {
    let mut bytes: Vec<u8> = Vec::new();
    push_le16(&mut bytes, 0x1234);
    push_le32(&mut bytes, 0x89ab_cdef);
    push_bytes(&mut bytes, &[1, 2]);
    assert_eq!(bytes, vec![0x34, 0x12, 0xef, 0xcd, 0xab, 0x89, 1, 2]);
    assert_eq!(read_word16(ByteOrder::LittleEndian, &bytes, 0), 0x1234);
    assert_eq!(read_word32(ByteOrder::LittleEndian, &bytes, 2), 0x89ab_cdef);
    assert_eq!(copied_range(&bytes, 6, 8), vec![1, 2]);
    assert!(contains_byte(&bytes, 0x12) && !contains_byte(&bytes, 0));
    assert!(same_bytes(&[1, 2], &[1, 2]) && !same_bytes(&[1], &[1, 2]));
}

#[test]
fn an_integer_is_written_in_an_order_and_read_back() {
    for (order, expected) in [
        (ByteOrder::LittleEndian, vec![0x34, 0x12, 0xef, 0xcd, 0xab, 0x89]),
        (ByteOrder::BigEndian, vec![0x12, 0x34, 0x89, 0xab, 0xcd, 0xef]),
    ] {
        let mut bytes: Vec<u8> = Vec::new();
        push_word16(order, &mut bytes, 0x1234);
        push_word32(order, &mut bytes, 0x89ab_cdef);
        assert_eq!(bytes, expected);
        assert_eq!(read_word16(order, &bytes, 0), 0x1234);
        assert_eq!(read_word32(order, &bytes, 2), 0x89ab_cdef);
    }
}

#[test]
fn a_digest_is_written_in_lower_case() {
    assert_eq!(
        sha256_text(b""),
        "e3b0c44298fc1c149afbf4c8996fb92427ae41e4649b934ca495991b7852b855"
    );
    assert_eq!(hex_of(&[0, 0xab, 0xff]), "00abff");
    assert_eq!(hex_digit(10), 'a');
}

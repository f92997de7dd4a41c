use rust_aec::text::{
    chars_of, contains, decimal_text, find_char, is_white_space, same, trim_bounds, wide_str,
};

#[test]
fn white_space_is_that_of_char() {
    for code in 0..=0x10FFFFu32 {
        if let Some(c) = char::from_u32(code) {
            assert_eq!(is_white_space(c), c.is_whitespace(), "U+{:04X}", code);
        }
    }
}

#[test]
fn wide_strings_are_utf_16_with_a_zero() {
    for text in ["", "Run", "Grüße", "\u{FFFF}", "a\u{10000}b", "\u{10FFFF}", "😀"] {
        let mut expected: Vec<u16> = text.encode_utf16().collect();
        expected.push(0);
        assert_eq!(wide_str(text), expected);
    }
    assert_eq!(wide_str("😀"), vec![0xD83D, 0xDE00, 0]);
}

#[test]
fn numbers_are_written_in_decimal() {
    for n in [0u32, 7, 9, 10, 99, 100, 65_535, 1_000_000_007, u32::MAX] {
        assert_eq!(decimal_text(n), format!("{}", n));
    }
}

#[test]
fn a_text_contains_its_parts() {
    assert!(contains("cable input", "cable"));
    assert!(contains("cable input", "input"));
    assert!(contains("cable input", ""));
    assert!(contains("", ""));
    assert!(!contains("cable", "cables"));
    assert!(!contains("", "c"));
    assert!(contains("ccable", "cable"));
}

#[test]
fn texts_are_compared_as_a_whole() {
    assert!(same("abc", "abc"));
    assert!(!same("abc", "abd"));
    assert!(!same("abc", "ab"));
    assert!(same("", ""));
}

#[test]
fn characters_are_found_and_white_space_is_trimmed() {
    let chars = chars_of("  key = value\r");
    assert_eq!(chars.len(), 14);
    assert_eq!(find_char(&chars, 0, 14, '='), 6);
    assert_eq!(find_char(&chars, 7, 14, '='), 14);
    assert_eq!(trim_bounds(&chars, 0, 6), (2, 5));
    assert_eq!(trim_bounds(&chars, 7, 14), (8, 13));
    let (from, to) = trim_bounds(&chars, 0, 2);
    assert_eq!(from, to);
}

#[test]
fn lower_case_lowers_ascii_letters_wherever_they_stand() {
    for code in 0..=0x10FFFFu32 {
        if let Some(c) = char::from_u32(code) {
            let text = format!("A{}bC{}D", c, c);
            let lower = text.to_lowercase();
            assert_eq!(lower, text.to_ascii_lowercase().to_lowercase());
            assert_eq!(lower, text.to_ascii_uppercase().to_lowercase());
            assert!(lower.starts_with('a') && lower.contains("bc") && lower.ends_with('d'));
            if c.is_ascii() {
                assert_eq!(lower, text.to_ascii_lowercase());
            }
        }
    }
}

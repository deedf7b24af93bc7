use rusmarc_raw::text::{is_digit, is_space, same_text};

#[test]
fn white_space_matches_std() {
    for code in 0u32..0x11_0000 {
        if let Some(c) = char::from_u32(code) {
            assert_eq!(is_space(c), c.is_whitespace(), "{:?}", c);
        }
    }
}

#[test]
fn digits_are_ascii_decimal() {
    for code in 0u32..0x11_0000 {
        if let Some(c) = char::from_u32(code) {
            assert_eq!(is_digit(c), c.is_ascii_digit(), "{:?}", c);
        }
    }
}

#[test]
fn texts_compare_by_characters() {
    assert!(same_text("ab", "ab"));
    assert!(same_text("", ""));
    assert!(!same_text("ab", "a"));
    assert!(!same_text("ab", "ac"));
    assert!(same_text("яц", "яц"));
}

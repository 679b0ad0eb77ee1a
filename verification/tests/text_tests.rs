use handy::text::{is_blank, is_whitespace};

#[test]
fn whitespace_table_matches_char_is_whitespace() {
    for n in 0u32..=0x10FFFF {
        if let Some(c) = char::from_u32(n) {
            assert_eq!(is_whitespace(c), c.is_whitespace(), "U+{:04X}", n);
        }
    }
}

#[test]
fn blank_strings() {
    assert!(is_blank("   "));
    assert!(is_blank("\t\u{3000}\u{2028}"));
    assert!(is_blank(""));
    assert!(!is_blank(" a "));
    assert!(!is_blank("\u{200B}"));
}

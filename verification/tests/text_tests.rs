//! Tests of the text utilities.

use dml_mcp::text::{decimal_text, is_whitespace, repeat_space, same_text, trim};

#[test]
fn decimal_numerals() {
    assert_eq!(decimal_text(0), "0");
    assert_eq!(decimal_text(7), "7");
    assert_eq!(decimal_text(10), "10");
    assert_eq!(decimal_text(4096), "4096");
    assert_eq!(decimal_text(4294967295), "4294967295");
    assert_eq!(decimal_text(u64::MAX), "18446744073709551615");
}

#[test]
fn runs_of_spaces() {
    assert_eq!(repeat_space(0), "");
    assert_eq!(repeat_space(3), "   ");
}

#[test]
fn comparison_of_slices() {
    assert!(same_text("cpu", "cpu"));
    assert!(!same_text("cpu", "cpu "));
    assert!(same_text("", ""));
}

#[test]
fn white_space_is_what_the_standard_library_says() {
    for code in 0u32..0x3100 {
        if let Some(c) = char::from_u32(code) {
            assert_eq!(is_whitespace(c), c.is_whitespace(), "U+{:04X}", code);
        }
    }
}

#[test]
fn trimming() {
    assert_eq!(trim("  a b \r\n"), "a b");
    assert_eq!(trim("a"), "a");
    assert_eq!(trim(""), "");
    assert_eq!(trim(" \t\n"), "");
    assert_eq!(trim("\u{a0}x\u{3000}"), "x");
    for text in ["  a b \r\n", "a", "", " \t\n", "\u{a0}x\u{3000}", "é  ", "\u{2003}{}\u{85}"] {
        assert_eq!(trim(text), text.trim());
    }
}

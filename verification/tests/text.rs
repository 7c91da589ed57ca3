use tauri_python_sidecar::text::{
    contains_text, decimal_text, ends_with, nth_word, split_after_last, split_before, split_word,
    starts_with, trim, trim_end, trim_start,
};

#[test]
fn decimal_numbers() {
    assert_eq!(decimal_text(0), "0");
    assert_eq!(decimal_text(9), "9");
    assert_eq!(decimal_text(10), "10");
    assert_eq!(decimal_text(18446744073709551615), "18446744073709551615");
}

#[test]
fn trimming_knows_unicode_space() {
    for c in (0u32..0x3100).filter_map(char::from_u32) {
        let text = format!("{c}x{c}");
        assert_eq!(trim(&text), text.trim(), "{:x}", c as u32);
    }
    assert_eq!(trim_start("  a "), "a ");
    assert_eq!(trim_end("  a "), "  a");
    assert_eq!(trim(" \t"), "");
}

#[test]
fn parts_of_texts() {
    assert!(contains_text("abcabd", "abd"));
    assert!(contains_text("abc", ""));
    assert!(!contains_text("ab", "abc"));
    assert!(starts_with("abc", "ab") && !starts_with("abc", "bc"));
    assert!(ends_with("abc", "bc") && !ends_with("abc", "ab"));
    assert_eq!(split_word("ab cd"), ("ab", " cd"));
    assert_eq!(nth_word(" ab\tcd ", 1), Some("cd"));
    assert_eq!(nth_word(" ab\tcd ", 2), None);
    assert_eq!(split_before("a,b,c", ','), "a");
    assert_eq!(split_before("abc", ','), "abc");
    assert_eq!(split_after_last("a/b/\u{e9}", '/'), "\u{e9}");
    assert_eq!(split_after_last("abc", '/'), "abc");
    assert_eq!(split_after_last("abc/", '/'), "");
}

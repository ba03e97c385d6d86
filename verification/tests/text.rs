use sgleam::text::{
    chars_of, decimal, ends_with, fits, same_text, slice, starts_with, strip_prefix, trim, white_space,
};

#[test]
fn trim_removes_surrounding_white_space() {
    assert_eq!(trim("  \t:quit \r\n"), ":quit");
    assert_eq!(trim("\u{3000}a b\u{85}"), "a b");
    assert_eq!(trim("   "), "");
    assert_eq!(trim(""), "");
    assert_eq!(trim("\u{200B}x"), "\u{200B}x");
    for c in 0..0x3100u32 {
        if let Some(c) = char::from_u32(c) {
            assert_eq!(white_space(c), c.is_whitespace(), "{c:?}");
        }
    }
}

#[test]
fn decimal_writes_digits() {
    assert_eq!(decimal(0), "0");
    assert_eq!(decimal(7), "7");
    assert_eq!(decimal(10), "10");
    assert_eq!(decimal(1234567890), "1234567890");
    assert_eq!(decimal(usize::MAX), usize::MAX.to_string());
}

#[test]
fn texts_are_compared_by_their_characters() {
    assert!(same_text("", ""));
    assert!(same_text("é", "\u{e9}"));
    assert!(!same_text("a", "ab"));
    assert!(!same_text("ab", "ac"));
    assert_eq!(chars_of("aé𝄞"), vec!['a', 'é', '𝄞']);
    assert!(starts_with(":type 1", ":type "));
    assert!(!starts_with(":type", ":type "));
    assert!(starts_with("a", ""));
    assert!(ends_with("double_examples", "_examples"));
    assert!(!ends_with("examples", "_examples"));
    assert_eq!(strip_prefix("é:b", "é:"), Some("b"));
    assert_eq!(strip_prefix("ab", "b"), None);
}

#[test]
fn a_slice_is_cut_at_byte_offsets() {
    let text = "let é = \"𝄞\"";
    assert!(fits(text, 0, text.len()));
    assert!(fits(text, 4, 6));
    assert!(!fits(text, 4, 5));
    assert!(!fits(text, 5, 6));
    assert!(!fits(text, 3, 2));
    assert!(!fits(text, 0, text.len() + 1));
    assert_eq!(slice(text, 4, 6), "é");
    assert_eq!(slice(text, 9, 15), "\"𝄞\"");
    assert_eq!(slice(text, 3, 3), "");
    assert_eq!(slice(text, 0, text.len()), text);
}

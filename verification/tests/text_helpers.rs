use torq::text::{decimal_string, is_blank, is_whitespace_char, same_text, trimmed};

#[test]
fn whitespace_agrees_with_std() {
    for c in [
        ' ', '\t', '\n', '\r', '\u{0b}', '\u{0c}', '\u{85}', '\u{a0}', '\u{1680}', '\u{2000}',
        '\u{200a}', '\u{2028}', '\u{2029}', '\u{202f}', '\u{205f}', '\u{3000}', 'a', '0', '\u{200b}',
        '\u{feff}', 'é',
    ] {
        assert_eq!(is_whitespace_char(c), c.is_whitespace(), "{c:?}");
    }
}

#[test]
fn trimming_agrees_with_std() {
    for s in ["  a b  ", "\u{3000}x\u{a0}", "", "   ", "\r\nline\r\n", "no-space"] {
        assert_eq!(trimmed(s), s.trim());
        assert_eq!(is_blank(s), s.trim().is_empty());
    }
}

#[test]
fn decimal_and_equality() {
    assert_eq!(decimal_string(0), "0");
    assert_eq!(decimal_string(9051), "9051");
    assert_eq!(decimal_string(u64::MAX), u64::MAX.to_string());
    assert!(same_text("abc", "abc"));
    assert!(!same_text("abc", "abd"));
    assert!(!same_text("abc", "ab"));
}

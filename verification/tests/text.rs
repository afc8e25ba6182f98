use auth_api::text::{chars_of, decimal_text, is_white_space, trim};

#[test]
fn trim_removes_surrounding_white_space() {
    assert_eq!(trim("  Alice@Example.com \n"), "Alice@Example.com");
    assert_eq!(trim("\u{3000}x y\u{a0}"), "x y");
    assert_eq!(trim("   "), "");
    assert_eq!(trim(""), "");
    assert_eq!(trim("abc"), "abc");
}

#[test]
fn trim_agrees_with_std() {
    for s in ["\t a \u{85}", "\u{2028}\u{2029}", "x\u{200b}", " \u{1680}b\u{205f}c\u{202f} "] {
        assert_eq!(trim(s), s.trim());
    }
}

#[test]
fn white_space_matches_std() {
    for c in ['\t', '\n', '\u{b}', '\u{c}', '\r', ' ', '\u{85}', '\u{a0}', '\u{1680}', '\u{2000}', '\u{200a}', '\u{2028}', '\u{2029}', '\u{202f}', '\u{205f}', '\u{3000}', 'a', '_', '\u{200b}', '\u{180e}'] {
        assert_eq!(is_white_space(c), c.is_whitespace());
    }
}

#[test]
fn chars_of_keeps_order() {
    assert_eq!(chars_of("héllo"), vec!['h', 'é', 'l', 'l', 'o']);
}

#[test]
fn decimal_text_writes_digits() {
    assert_eq!(decimal_text(0), "0");
    assert_eq!(decimal_text(7), "7");
    assert_eq!(decimal_text(403), "403");
    assert_eq!(decimal_text(u64::MAX), "18446744073709551615");
}

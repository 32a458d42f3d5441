use bevy_ta::text::{blank, decimal_string, parse_u16, str_eq, str_less, trim};

#[test]
fn trim_removes_surrounding_unicode_whitespace() {
    assert_eq!(trim("  hello \t"), "hello");
    assert_eq!(trim("\u{3000}名字\u{a0}\n"), "名字");
    assert_eq!(trim("a b"), "a b");
    assert_eq!(trim("   "), "");
    assert_eq!(trim(""), "");
}

#[test]
fn trim_agrees_with_std() {
    for text in ["  x  ", "\u{2028}y\u{205f}", "\u{85}z", "\u{1680}\u{2000}\u{200a}w\u{202f}", "no"] {
        assert_eq!(trim(text), text.trim());
    }
}

#[test]
fn blank_means_only_whitespace() {
    assert!(blank(" \t\r\n"));
    assert!(blank(""));
    assert!(!blank(" a "));
}

#[test]
fn decimal_string_writes_digits() {
    assert_eq!(decimal_string(0), "0");
    assert_eq!(decimal_string(7), "7");
    assert_eq!(decimal_string(10), "10");
    assert_eq!(decimal_string(1_700_000_000), "1700000000");
    assert_eq!(decimal_string(u64::MAX), u64::MAX.to_string());
}

#[test]
fn parse_u16_accepts_what_std_accepts() {
    for text in [
        "80", "+80", "0080", "0", "65535", "65536", "", "+", "-1", " 80", "80 ", "8a", "99999999999",
        "+-1", "١٢",
    ] {
        assert_eq!(parse_u16(text), text.parse::<u16>().ok(), "text {text:?}");
    }
}

#[test]
fn str_less_is_lexicographic() {
    assert!(str_less("a", "b"));
    assert!(str_less("a", "ab"));
    assert!(!str_less("ab", "a"));
    assert!(!str_less("same", "same"));
    assert!(str_less("", "x"));
    for (a, b) in [("z", "é"), ("节点", "节"), ("face", "hair"), ("Hair", "hair")] {
        assert_eq!(str_less(a, b), a < b, "{a:?} < {b:?}");
        assert_eq!(str_less(b, a), b < a, "{b:?} < {a:?}");
    }
}

#[test]
fn str_eq_compares_contents() {
    assert!(str_eq("toon.rim_color", "toon.rim_color"));
    assert!(!str_eq("toon.rim_color", "toon.rim_colour"));
}

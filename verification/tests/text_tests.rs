use tts_starter::text::{
    chars_of, joined, drop_chars, has_substring, i64_text, is_blank, is_whitespace, starts_with,
    u64_text,
};

#[test]
fn substring_search() {
    assert!(has_substring("session expired", "expired"));
    assert!(has_substring("abc", ""));
    assert!(has_substring("", ""));
    assert!(!has_substring("", "a"));
    assert!(!has_substring("expire", "expired"));
    assert!(has_substring("aaab", "aab"));
}

#[test]
fn prefix_check() {
    assert!(starts_with("Bearer x", "Bearer "));
    assert!(!starts_with("Bear", "Bearer "));
    assert!(starts_with("x", ""));
}

#[test]
fn whitespace_is_unicode_white_space() {
    for c in ['\t', '\n', '\u{0B}', '\u{0C}', '\r', ' ', '\u{85}', '\u{A0}', '\u{1680}', '\u{2000}', '\u{200A}', '\u{2028}', '\u{2029}', '\u{202F}', '\u{205F}', '\u{3000}'] {
        assert!(is_whitespace(c), "{:?}", c);
        assert_eq!(is_whitespace(c), c.is_whitespace());
    }
    for c in ['a', '\u{200B}', '\u{180E}', '\u{FEFF}', '\0'] {
        assert!(!is_whitespace(c), "{:?}", c);
        assert_eq!(is_whitespace(c), c.is_whitespace());
    }
}

#[test]
fn blank_matches_trim() {
    for s in ["", " ", "\t a", "a", " \u{3000} "] {
        assert_eq!(is_blank(s), s.trim().is_empty());
    }
}

#[test]
fn decimal_text() {
    assert_eq!(u64_text(0), "0");
    assert_eq!(u64_text(407), "407");
    assert_eq!(u64_text(u64::MAX), u64::MAX.to_string());
    assert_eq!(i64_text(-1), "-1");
    assert_eq!(i64_text(i64::MIN), i64::MIN.to_string());
}

#[test]
fn character_helpers() {
    assert_eq!(chars_of("héllo"), vec!['h', 'é', 'l', 'l', 'o']);
    assert_eq!(joined("ab", "cd"), "abcd");
    assert_eq!(drop_chars("héllo", 2), "llo");
}

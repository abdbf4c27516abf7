use lianli::text::{
    char_is_white_space, decimal_string, parse_decimal, str_equal, str_find, str_first_word,
    str_is_blank, str_lines, str_split_once, str_trim, strip_prefix, strip_suffix,
};

#[test]
fn white_space_matches_std() {
    for c in ['\t', '\n', '\u{b}', '\u{c}', '\r', ' ', '\u{85}', '\u{a0}', '\u{1680}', '\u{2000}',
        '\u{200a}', '\u{2028}', '\u{2029}', '\u{202f}', '\u{205f}', '\u{3000}', 'a', '\u{200b}',
        '\u{feff}', '_', '\u{8}']
    {
        assert_eq!(char_is_white_space(c), c.is_whitespace(), "{c:?}");
    }
}

#[test]
fn trim_and_blank_match_std() {
    for s in ["", "  ", "abc", "  a b  ", "\u{3000}x\u{a0}", "\n\t", "x\r\n"] {
        assert_eq!(str_trim(s), s.trim());
        assert_eq!(str_is_blank(s), s.trim().is_empty());
    }
}

#[test]
fn prefix_suffix_find_split() {
    assert_eq!(strip_prefix("{:.2}", "{:.").as_deref(), Some("2}"));
    assert_eq!(strip_prefix("{:", "{:."), None);
    assert_eq!(strip_suffix("2}", "}").as_deref(), Some("2"));
    assert_eq!(strip_suffix("", "}"), None);
    assert_eq!(str_find("ab{}cd{}", "{}"), Some(2));
    assert_eq!(str_find("°C {}", "{}"), Some(3));
    assert_eq!(str_find("abc", "{}"), None);
    assert_eq!(str_find("abc", ""), Some(0));
    assert_eq!(
        str_split_once("a, b, c", ", "),
        Some(("a".to_string(), "b, c".to_string()))
    );
    assert_eq!(str_split_once("abc", ", "), None);
    assert!(str_equal("x", "x"));
    assert!(!str_equal("x", "y"));
}

#[test]
fn lines_match_std() {
    for s in ["", "a", "a\n", "a\nb", "a\r\nb\r\n", "\n\n", "a\r", "x\ny\n\nz"] {
        let ours = str_lines(s);
        let std: Vec<String> = s.lines().map(|l| l.to_string()).collect();
        assert_eq!(ours, std, "{s:?}");
    }
}

#[test]
fn decimal_parsing_matches_std() {
    for s in ["0", "42", "+7", "-1", "", "+", "12a", " 1", "4294967295", "4294967296", "007"] {
        assert_eq!(parse_decimal(s, u32::MAX as u64), s.parse::<u32>().ok().map(|v| v as u64), "{s:?}");
    }
    assert_eq!(parse_decimal("18446744073709551615", u64::MAX), Some(u64::MAX));
    assert_eq!(parse_decimal("18446744073709551616", u64::MAX), None);
}

#[test]
fn decimal_formatting_matches_std() {
    for n in [0u64, 7, 10, 99, 100, 12345, u64::MAX] {
        assert_eq!(decimal_string(n), n.to_string());
    }
}

#[test]
fn first_word_matches_std() {
    for s in ["", "   ", "42", "  38.5 C", "\tx\ny"] {
        assert_eq!(str_first_word(s).as_deref(), s.split_whitespace().next());
    }
}

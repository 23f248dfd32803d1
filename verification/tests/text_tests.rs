use ccometixline::string_map::StringMap;
use ccometixline::text::{
    char_count, decimal, digit_of, is_whitespace, join2, owned, parse_u32, str_eq, trim,
};

#[test]
fn decimal_writes_numbers() {
    assert_eq!(decimal(0), "0");
    assert_eq!(decimal(7), "7");
    assert_eq!(decimal(10), "10");
    assert_eq!(decimal(255), "255");
    assert_eq!(decimal(1234567890), "1234567890");
    assert_eq!(decimal(u64::MAX), "18446744073709551615");
}

#[test]
fn char_count_counts_code_points() {
    assert_eq!(char_count(""), 0);
    assert_eq!(char_count("abc"), 3);
    assert_eq!(char_count("[↑↓] Navigate"), 13);
    assert_eq!(char_count("✓"), 1);
}

#[test]
fn join2_and_owned() {
    assert_eq!(join2("ab", "cd"), "abcd");
    assert_eq!(join2("", ""), "");
    assert_eq!(owned("x"), "x");
}

#[test]
fn trim_removes_outer_whitespace_only() {
    assert_eq!(trim("  main \n"), "main");
    assert_eq!(trim("main"), "main");
    assert_eq!(trim("a b"), "a b");
    assert_eq!(trim("\t a  b \r\n"), "a  b");
    assert_eq!(trim("   "), "");
    assert_eq!(trim(""), "");
    assert_eq!(trim("\u{a0}x\u{3000}"), "x");
}

#[test]
fn trim_agrees_with_std() {
    for s in ["", " ", "x", " x", "x ", " x y  ", "\n\n", "é ", " ✓✓ "] {
        assert_eq!(trim(s), s.trim());
    }
}

#[test]
fn string_map_starts_empty() {
    let m: StringMap<String> = StringMap::new();
    assert_eq!(m.len(), 0);
    assert!(m.get("a").is_none());
    assert!(!m.contains_key("a"));
}

#[test]
fn string_map_insert_then_get() {
    let mut m: StringMap<String> = StringMap::new();
    m.insert("a".to_string(), "1".to_string());
    m.insert("b".to_string(), "2".to_string());
    assert_eq!(m.len(), 2);
    assert_eq!(m.get("a").map(|s| s.as_str()), Some("1"));
    assert_eq!(m.get("b").map(|s| s.as_str()), Some("2"));
    assert!(m.get("c").is_none());
    assert!(m.contains_key("b"));
}

#[test]
fn string_map_insert_replaces() {
    let mut m: StringMap<String> = StringMap::new();
    m.insert("a".to_string(), "1".to_string());
    m.insert("b".to_string(), "2".to_string());
    m.insert("a".to_string(), "3".to_string());
    assert_eq!(m.len(), 2);
    assert_eq!(m.get("a").map(|s| s.as_str()), Some("3"));
    assert_eq!(m.key_at(0), "a");
    assert_eq!(m.key_at(1), "b");
    assert_eq!(m.value_at(0), "3");
}

#[test]
fn string_map_clone_is_independent() {
    let mut m: StringMap<String> = StringMap::new();
    m.insert("a".to_string(), "1".to_string());
    let mut c = m.clone();
    c.insert("a".to_string(), "9".to_string());
    c.insert("z".to_string(), "0".to_string());
    assert_eq!(m.len(), 1);
    assert_eq!(m.get("a").map(|s| s.as_str()), Some("1"));
    assert_eq!(c.len(), 2);
    assert_eq!(c.get("a").map(|s| s.as_str()), Some("9"));
}

#[test]
fn whitespace_is_what_unicode_says() {
    for code in 0..=0x10ffffu32 {
        if let Some(c) = char::from_u32(code) {
            assert_eq!(is_whitespace(c), c.is_whitespace(), "U+{:04X}", code);
        }
    }
}

#[test]
fn whitespace_examples() {
    for c in [' ', '\t', '\n', '\r', '\u{b}', '\u{c}', '\u{85}', '\u{a0}', '\u{2003}', '\u{3000}'] {
        assert!(is_whitespace(c));
    }
    for c in ['a', '0', '\u{8}', '\u{e}', '\u{200b}', '\u{feff}', '_'] {
        assert!(!is_whitespace(c));
    }
}

#[test]
fn parse_u32_reads_digits() {
    assert_eq!(parse_u32("0"), Some(0));
    assert_eq!(parse_u32("7"), Some(7));
    assert_eq!(parse_u32("+7"), Some(7));
    assert_eq!(parse_u32("007"), Some(7));
    assert_eq!(parse_u32("4294967295"), Some(u32::MAX));
    assert_eq!(parse_u32("+4294967295"), Some(u32::MAX));
    assert_eq!(parse_u32("0000000000000000000000012"), Some(12));
}

#[test]
fn parse_u32_rejects_everything_else() {
    for text in [
        "", "+", "-", "-0", "-1", "++1", "+-1", "1+", " 1", "1 ", "1_000", "1.0", "0x10", "abc",
        "4294967296", "42949672950", "99999999999999999999999999", "١٢٣", "1\n",
    ] {
        assert_eq!(parse_u32(text), None, "{:?}", text);
    }
}

#[test]
fn parse_u32_agrees_with_std() {
    let pieces = ["", "+", "-", "0", "1", "9", "42", "429496729", "5", "6", " ", "a"];
    for a in pieces {
        for b in pieces {
            for c in pieces {
                let text = format!("{}{}{}", a, b, c);
                assert_eq!(parse_u32(&text), text.parse::<u32>().ok(), "{:?}", text);
            }
        }
    }
}

#[test]
fn digit_of_reads_ascii_digits_only() {
    for (i, c) in ('0'..='9').enumerate() {
        assert_eq!(digit_of(c), Some(i as u64));
    }
    for c in ['a', ' ', '+', '-', '/', ':', '٣', '\u{ff11}'] {
        assert_eq!(digit_of(c), None);
    }
}

#[test]
fn str_eq_compares_characters() {
    assert!(str_eq("", ""));
    assert!(str_eq("abc", "abc"));
    assert!(!str_eq("abc", "abd"));
    assert!(!str_eq("abc", "ab"));
    assert!(!str_eq("é", "e"));
}

#[test]
fn decimal_agrees_with_std() {
    for n in (0..2000u64).chain([9_999, 10_000, 99_999, 100_000, u32::MAX as u64, u64::MAX - 1]) {
        assert_eq!(decimal(n), n.to_string());
    }
}

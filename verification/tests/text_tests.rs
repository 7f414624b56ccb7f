use easyvault::text::{clean_lines_of, i64_text, parse_i64, parse_u8, str_eq, to_hex_lower, trim};

#[test]
fn trim_strips_unicode_whitespace() {
    assert_eq!(trim("  \t hello world \n"), "hello world");
    assert_eq!(trim("\u{00a0}x\u{2003}"), "x");
    assert_eq!(trim("   "), "");
}

#[test]
fn parse_i64_matches_std() {
    for s in ["0", "42", "-7", "+9", "9223372036854775807", "-9223372036854775808"] {
        assert_eq!(parse_i64(s), s.parse::<i64>().ok(), "{s}");
    }
    for s in ["", "-", "+", "1a", " 1", "9223372036854775808", "--1"] {
        assert_eq!(parse_i64(s), None, "{s}");
    }
}

#[test]
fn parse_u8_matches_std() {
    for s in ["0", "5", "255", "+3"] {
        assert_eq!(parse_u8(s), s.parse::<u8>().ok(), "{s}");
    }
    for s in ["256", "-1", "", "x"] {
        assert_eq!(parse_u8(s), None, "{s}");
    }
}

#[test]
fn decimal_and_hex_text() {
    assert_eq!(i64_text(-120), "-120");
    assert_eq!(i64_text(i64::MIN), "-9223372036854775808");
    assert_eq!(to_hex_lower(&[0x00, 0xab, 0x7f]), "00ab7f");
}

#[test]
fn clean_lines_drop_blank_and_trim() {
    let v = clean_lines_of(" a \r\n\n  \nb\n c");
    assert_eq!(v, vec!["a".to_string(), "b".to_string(), "c".to_string()]);
    assert!(clean_lines_of("").is_empty());
}

#[test]
fn str_eq_compares_contents() {
    assert!(str_eq("abc", "abc"));
    assert!(!str_eq("abc", "abd"));
    assert!(!str_eq("ab", "abc"));
}

use aegis_gateway::text::{
    contains, join_strings, parse_hex_u8_exec, saturating_u64, split_char, starts_with, str_eq,
    u128_to_decimal, u64_to_decimal, u8_to_hex2,
};

#[test]
fn decimal_rendering() {
    assert_eq!(u64_to_decimal(0), "0");
    assert_eq!(u64_to_decimal(7), "7");
    assert_eq!(u64_to_decimal(1000), "1000");
    assert_eq!(u64_to_decimal(u64::MAX), u64::MAX.to_string());
}

#[test]
fn hex_rendering_and_parsing() {
    assert_eq!(u8_to_hex2(0), "00");
    assert_eq!(u8_to_hex2(0x0f), "0f");
    assert_eq!(u8_to_hex2(0xa5), "a5");
    for b in 0..=255u8 {
        assert_eq!(parse_hex_u8_exec(&u8_to_hex2(b)), Some(b));
        assert_eq!(parse_hex_u8_exec(&u8_to_hex2(b)), u8::from_str_radix(&u8_to_hex2(b), 16).ok());
    }
    for s in ["", "+", "-1", "+ff", "FF", "100", "0100", "g", "1 "] {
        assert_eq!(parse_hex_u8_exec(s), u8::from_str_radix(s, 16).ok(), "input {s:?}");
    }
}

#[test]
fn split_matches_std() {
    for s in ["", "-", "a-b-c", "--", "00-abc-def-01", "no separators"] {
        let expected: Vec<String> = s.split('-').map(String::from).collect();
        assert_eq!(split_char(s, '-'), expected, "input {s:?}");
    }
}

#[test]
fn search_and_join() {
    assert!(starts_with("/mcp/tools", "/mcp"));
    assert!(!starts_with("/mc", "/mcp"));
    assert!(contains("abc text/event-stream", "event"));
    assert!(contains("abc", ""));
    assert!(!contains("abc", "abcd"));
    assert!(str_eq("x", "x"));
    assert!(!str_eq("x", "xy"));
    let parts = vec!["a".to_string(), "b".to_string(), "c".to_string()];
    assert_eq!(join_strings(&parts, ", "), "a, b, c");
    assert_eq!(join_strings(&Vec::new(), ", "), "");
}

#[test]
fn wide_decimals_and_saturation() {
    assert_eq!(u128_to_decimal(0), "0");
    assert_eq!(u128_to_decimal(u128::MAX), u128::MAX.to_string());
    assert_eq!(saturating_u64(12), 12);
    assert_eq!(saturating_u64(u64::MAX as u128), u64::MAX);
    assert_eq!(saturating_u64(u64::MAX as u128 + 1), u64::MAX);
    assert_eq!(saturating_u64(u128::MAX), u64::MAX);
}

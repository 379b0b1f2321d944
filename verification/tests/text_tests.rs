use cockpit_instances::text::{
    blank, concatenate, join_strings, parse_i64, parse_u32, render_i64, render_u64, trimmed,
};

#[test]
fn renders_integers_like_to_string() {
    assert_eq!(render_u64(0), "0");
    assert_eq!(render_u64(3456), "3456");
    assert_eq!(render_u64(u64::MAX), u64::MAX.to_string());
    assert_eq!(render_i64(-42), "-42");
    assert_eq!(render_i64(i64::MIN), i64::MIN.to_string());
    assert_eq!(render_i64(i64::MAX), i64::MAX.to_string());
}

#[test]
fn parses_signed_integers_like_from_str() {
    for text in ["0", "+17", "-17", "007", "-9223372036854775808", "9223372036854775807", "", "-", "+", "12a", " 1", "9223372036854775808", "-9223372036854775809", "1.5", "--1"] {
        assert_eq!(parse_i64(text), text.parse::<i64>().ok(), "{:?}", text);
    }
}

#[test]
fn parses_unsigned_integers_like_from_str() {
    for text in ["0", "+18", "4294967295", "4294967296", "-1", "-0", "", "18x", "00018"] {
        assert_eq!(parse_u32(text), text.parse::<u32>().ok(), "{:?}", text);
    }
}

#[test]
fn rendered_numbers_read_back() {
    for n in [0i64, 1, -1, 1_715_000_000_123, i64::MIN, i64::MAX] {
        assert_eq!(parse_i64(&render_i64(n)), Some(n));
    }
    for n in [0u32, 18, u32::MAX] {
        assert_eq!(parse_u32(&render_u64(n as u64)), Some(n));
    }
}

#[test]
fn trimming_and_joining() {
    assert_eq!(trimmed("\u{3000} a b \n"), "a b");
    assert!(blank(" \t\r\n"));
    assert!(!blank(" x "));
    assert_eq!(concatenate("ab", "cd"), "abcd");
    let parts = vec!["a".to_string(), "b".to_string(), "c".to_string()];
    assert_eq!(join_strings(&parts, ", "), "a, b, c");
    assert_eq!(join_strings(&Vec::new(), ", "), "");
}

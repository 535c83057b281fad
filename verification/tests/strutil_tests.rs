use lemurs::strutil::{parse_u8, str_eq, trim_spaces};

#[test]
fn test_str_eq() {
    assert!(str_eq("", ""));
    assert!(str_eq("abc", "abc"));
    assert!(!str_eq("abc", "abd"));
    assert!(!str_eq("abc", "ab"));
}

#[test]
fn test_trim_spaces() {
    assert_eq!(trim_spaces("  hello \t"), "hello");
    assert_eq!(trim_spaces("\r\nworld"), "world");
    assert_eq!(trim_spaces("inner space kept"), "inner space kept");
    assert_eq!(trim_spaces("   "), "");
    assert_eq!(trim_spaces(""), "");
}

#[test]
fn test_parse_u8() {
    assert_eq!(parse_u8("0"), Some(0));
    assert_eq!(parse_u8("12"), Some(12));
    assert_eq!(parse_u8("255"), Some(255));
    assert_eq!(parse_u8("+7"), Some(7));
    assert_eq!(parse_u8("256"), None);
    assert_eq!(parse_u8("9999"), None);
    assert_eq!(parse_u8(""), None);
    assert_eq!(parse_u8("+"), None);
    assert_eq!(parse_u8("7a"), None);
    assert_eq!(parse_u8(" 7"), None);
    assert_eq!(parse_u8("-1"), None);
}

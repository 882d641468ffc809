use overlay_core::numbers::{
    parse_i32, parse_isize, parse_u32, parse_u64, parse_unsigned_at_most, parse_usize,
    u64_to_decimal, usize_to_decimal,
};
use overlay_core::text::{
    ends_with_str, find_first, find_first_ci, insert_str_at, is_blank_str, starts_with_str,
    str_eq, to_chars, trim_end_string, trim_start_string, trim_string,
};

#[test]
fn unsigned_numbers_parse_like_std() {
    assert_eq!(parse_u32("42"), Some(42));
    assert_eq!(parse_u32("+7"), Some(7));
    assert_eq!(parse_u32("4294967295"), Some(u32::MAX));
    assert_eq!(parse_u32("4294967296"), None);
    assert_eq!(parse_u32(""), None);
    assert_eq!(parse_u32("-1"), None);
    assert_eq!(parse_u32("1a"), None);
    assert_eq!(parse_u64("18446744073709551615"), Some(u64::MAX));
    assert_eq!(parse_usize("007"), Some(7));
    assert_eq!(parse_unsigned_at_most("100", 99), None);
    assert_eq!(parse_unsigned_at_most("99", 99), Some(99));
}

#[test]
fn signed_numbers_parse_like_std() {
    assert_eq!(parse_i32("-2147483648"), Some(i32::MIN));
    assert_eq!(parse_i32("2147483647"), Some(i32::MAX));
    assert_eq!(parse_i32("2147483648"), None);
    assert_eq!(parse_i32("-"), None);
    assert_eq!(parse_i32("+15"), Some(15));
    assert_eq!(parse_isize("-12"), Some(-12));
    for s in ["0", "-5", "+3", "x", "", "--1", "99999999999"] {
        assert_eq!(parse_i32(s), s.parse::<i32>().ok());
        assert_eq!(parse_u32(s), s.parse::<u32>().ok());
    }
}

#[test]
fn decimal_formatting() {
    assert_eq!(u64_to_decimal(0), "0");
    assert_eq!(u64_to_decimal(1234567890), "1234567890");
    assert_eq!(u64_to_decimal(u64::MAX), u64::MAX.to_string());
    assert_eq!(usize_to_decimal(10), "10");
}

#[test]
fn trimming_and_blank_text() {
    assert_eq!(trim_string("  a b \n"), "a b");
    assert_eq!(trim_end_string(" a \t"), " a");
    assert_eq!(trim_start_string("\n a "), "a ");
    assert!(is_blank_str(" \t\n"));
    assert!(is_blank_str(""));
    assert!(!is_blank_str(" x "));
}

#[test]
fn searching_text() {
    let v = to_chars("Hello <BODY> world <body>");
    assert_eq!(find_first(&v, "<body>", 0), Some(19));
    assert_eq!(find_first_ci(&v, "<body>", 0), Some(6));
    assert_eq!(find_first_ci(&v, "<body>", 7), Some(19));
    assert_eq!(find_first(&v, "missing", 0), None);
    assert!(starts_with_str("https://x", "https://"));
    assert!(ends_with_str("index.js", ".js"));
    assert!(!ends_with_str("js", "index.js"));
    assert!(str_eq("same", "same"));
    assert!(!str_eq("same", "Same"));
    assert_eq!(insert_str_at(&to_chars("ac"), 1, "b"), "abc");
}

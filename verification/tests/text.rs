use hwmon::text::{
    fmt_dec_i16, fmt_dec_u32, fmt_hex_u32_pad, parse_dec_i16, parse_dec_u32, parse_hex_u32,
    split_str, str_eq, str_starts_with,
};

#[test]
fn decimal_formatting() {
    assert_eq!(fmt_dec_u32(0), "0");
    assert_eq!(fmt_dec_u32(7), "7");
    assert_eq!(fmt_dec_u32(1203), "1203");
    assert_eq!(fmt_dec_u32(4294967295), "4294967295");
    assert_eq!(fmt_dec_i16(-1), "-1");
    assert_eq!(fmt_dec_i16(-32768), "-32768");
    assert_eq!(fmt_dec_i16(32767), "32767");
    assert_eq!(fmt_dec_i16(0), "0");
}

#[test]
fn hexadecimal_formatting_pads_with_zeros() {
    assert_eq!(fmt_hex_u32_pad(0x2a, 4), "002a");
    assert_eq!(fmt_hex_u32_pad(0x48, 2), "48");
    assert_eq!(fmt_hex_u32_pad(0x5, 2), "05");
    assert_eq!(fmt_hex_u32_pad(0, 1), "0");
    assert_eq!(fmt_hex_u32_pad(0xf83, 2), "f83");
    assert_eq!(fmt_hex_u32_pad(0xdeadbeef, 4), "deadbeef");
}

#[test]
fn decimal_parsing_bounds() {
    assert_eq!(parse_dec_u32("0"), Some(0));
    assert_eq!(parse_dec_u32("4294967295"), Some(4294967295));
    assert_eq!(parse_dec_u32("4294967296"), None);
    assert_eq!(parse_dec_u32(""), None);
    assert_eq!(parse_dec_u32("12a"), None);
    assert_eq!(parse_dec_u32("-1"), None);
    assert_eq!(parse_dec_u32("007"), Some(7));
}

#[test]
fn signed_parsing_bounds() {
    assert_eq!(parse_dec_i16("9191"), Some(9191));
    assert_eq!(parse_dec_i16("-32768"), Some(-32768));
    assert_eq!(parse_dec_i16("-32769"), None);
    assert_eq!(parse_dec_i16("32767"), Some(32767));
    assert_eq!(parse_dec_i16("32768"), None);
    assert_eq!(parse_dec_i16("+12"), Some(12));
    assert_eq!(parse_dec_i16("+"), None);
    assert_eq!(parse_dec_i16("-"), None);
    assert_eq!(parse_dec_i16(""), None);
}

#[test]
fn hexadecimal_parsing_accepts_both_cases() {
    assert_eq!(parse_hex_u32("1f"), Some(0x1f));
    assert_eq!(parse_hex_u32("1F"), Some(0x1f));
    assert_eq!(parse_hex_u32("ffffffff"), Some(0xffffffff));
    assert_eq!(parse_hex_u32("100000000"), None);
    assert_eq!(parse_hex_u32("g"), None);
    assert_eq!(parse_hex_u32(""), None);
}

#[test]
fn split_keeps_empty_pieces() {
    assert_eq!(split_str("a-b-c", '-'), vec!["a", "b", "c"]);
    assert_eq!(split_str("", '-'), vec![""]);
    assert_eq!(split_str("-", '-'), vec!["", ""]);
    assert_eq!(split_str("a-", '-'), vec!["a", ""]);
    assert_eq!(split_str("-a", '-'), vec!["", "a"]);
    assert_eq!(split_str("abc", '-'), vec!["abc"]);
}

#[test]
fn comparison_helpers() {
    assert!(str_eq("temp", "temp"));
    assert!(!str_eq("temp", "temq"));
    assert!(!str_eq("temp", "tem"));
    assert!(str_starts_with("spi1.2", "spi"));
    assert!(!str_starts_with("sp", "spi"));
    assert!(!str_starts_with("api1.2", "spi"));
}

use payslip::text::{int_to_decimal, parse_int_in, push_zero_padded, same_text, trim_str};

#[test]
fn decimal_text_of_integers() {
    assert_eq!(int_to_decimal(0), "0");
    assert_eq!(int_to_decimal(7), "7");
    assert_eq!(int_to_decimal(-5), "-5");
    assert_eq!(int_to_decimal(12345), "12345");
    assert_eq!(int_to_decimal(i64::MIN), i64::MIN.to_string());
    assert_eq!(int_to_decimal(i64::MAX), i64::MAX.to_string());
}

#[test]
fn zero_padding_to_a_width() {
    let mut s = String::from("x");
    push_zero_padded(&mut s, 42, 6);
    assert_eq!(s, "x000042");
    let mut t = String::new();
    push_zero_padded(&mut t, 1234567, 6);
    assert_eq!(t, "1234567");
    let mut u = String::new();
    push_zero_padded(&mut u, 0, 6);
    assert_eq!(u, "000000");
}

#[test]
fn parsing_matches_std_parse() {
    let cases = [
        "0", "+12", "-0", "", "+", "-", "12a", " 12", "12 ", "007", "-2147483648", "2147483648",
        "-2147483649", "99999999999999999999999", "+-1", "١٢",
    ];
    for c in cases {
        assert_eq!(parse_int_in(c, i32::MIN as i64, i32::MAX as i64), c.parse::<i32>().ok().map(|v| v as i64), "i32 {c:?}");
        assert_eq!(parse_int_in(c, 0, u16::MAX as i64), c.parse::<u16>().ok().map(|v| v as i64), "u16 {c:?}");
        assert_eq!(parse_int_in(c, i64::MIN, i64::MAX), c.parse::<i64>().ok(), "i64 {c:?}");
    }
    assert_eq!(parse_int_in("-9223372036854775808", i64::MIN, i64::MAX), Some(i64::MIN));
    assert_eq!(parse_int_in("65535", 0, 65535), Some(65535));
    assert_eq!(parse_int_in("65536", 0, 65535), None);
    assert_eq!(parse_int_in("-1", 0, 65535), None);
}

#[test]
fn trimming_matches_std_trim() {
    let cases = ["  a b  ", "\u{3000}x\u{2028}", "\t\n\r", "", "y", " \u{85}z\u{a0} "];
    for c in cases {
        assert_eq!(trim_str(c), c.trim(), "{c:?}");
    }
}

#[test]
fn comparing_texts() {
    assert!(same_text("abc", "abc"));
    assert!(!same_text("abc", "abd"));
    assert!(!same_text("abc", "ab"));
    assert!(same_text("", ""));
}

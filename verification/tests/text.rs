use calendula::text::{dec_len, dec_string, normalize_crlf, parse_int_sat, str_eq};

#[test]
fn numbers_render_in_decimal() {
    assert_eq!(dec_string(0), "0");
    assert_eq!(dec_string(7), "7");
    assert_eq!(dec_string(8443), "8443");
    assert_eq!(dec_string(u64::MAX), "18446744073709551615");
    assert_eq!(dec_len(0), 1);
    assert_eq!(dec_len(9999), 4);
    assert_eq!(dec_len(u64::MAX), 20);
}

#[test]
fn integers_parse_with_sign_and_saturation() {
    assert_eq!(parse_int_sat("123", 100000), Some(123));
    assert_eq!(parse_int_sat("+7", 100000), Some(7));
    assert_eq!(parse_int_sat("-5", 100000), Some(-5));
    assert_eq!(parse_int_sat("007", 100000), Some(7));
    assert_eq!(parse_int_sat("", 100000), None);
    assert_eq!(parse_int_sat("+", 100000), None);
    assert_eq!(parse_int_sat("12x", 100000), None);
    assert_eq!(parse_int_sat("99999999999999", 100000), Some(100000));
    assert_eq!(parse_int_sat("-99999999999999", 100000), Some(-100000));
}

#[test]
fn text_equality_compares_characters() {
    assert!(str_eq("julian", "julian"));
    assert!(!str_eq("julian", "juliaN"));
    assert!(!str_eq("julian", "julia"));
    assert!(str_eq("", ""));
}

#[test]
fn line_endings_normalise_to_crlf() {
    let out = normalize_crlf(b"a\r\nb\nc");
    assert_eq!(out, b"a\r\nb\r\nc".to_vec());
    let out = normalize_crlf(b"\r\r\n");
    assert_eq!(out, b"\r\n".to_vec());
    let out = normalize_crlf(b"");
    assert_eq!(out, Vec::<u8>::new());
}

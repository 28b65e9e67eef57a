use node_link::hexfmt::{dec_string_of_i64, hex_encode};

#[test]
fn hex_encode_is_lowercase_two_digits_per_byte() {
    assert_eq!(hex_encode(&[]), "");
    assert_eq!(hex_encode(&[0x00]), "00");
    assert_eq!(hex_encode(&[0x00, 0xff, 0x1a]), "00ff1a");
    assert_eq!(hex_encode(&[0xde, 0xad, 0xbe, 0xef]), "deadbeef");
}

#[test]
fn decimal_rendering_matches_to_string() {
    assert_eq!(dec_string_of_i64(0), "0");
    assert_eq!(dec_string_of_i64(7), "7");
    assert_eq!(dec_string_of_i64(1234567890123), "1234567890123");
    assert_eq!(dec_string_of_i64(-42), "-42");
    assert_eq!(dec_string_of_i64(i64::MAX), i64::MAX.to_string());
    assert_eq!(dec_string_of_i64(i64::MIN), i64::MIN.to_string());
}

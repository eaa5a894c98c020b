use accountcat::serial::{serial_decimal, serial_from_decimal, serial_hex};

#[test]
fn hex_of_empty_is_zero() {
    assert_eq!("0", serial_hex(&[]));
}

#[test]
fn hex_of_zero_bytes_is_zero() {
    assert_eq!("0", serial_hex(&[0, 0, 0]));
}

#[test]
fn hex_drops_leading_zeros() {
    assert_eq!("ABC", serial_hex(&[0x0A, 0xBC]));
    assert_eq!("ABC", serial_hex(&[0x00, 0x0A, 0xBC]));
}

#[test]
fn hex_of_full_bytes() {
    assert_eq!("FFFE", serial_hex(&[0xFF, 0xFE]));
    assert_eq!("10000", serial_hex(&[0x01, 0x00, 0x00]));
}

#[test]
fn hex_matches_biguint_format() {
    // The same rendering the X.509 parser's big integer would print.
    let bytes = [0x12, 0x34, 0x56, 0x78, 0x9A];
    let value = 0x123456789Au64;
    assert_eq!(format!("{value:X}"), serial_hex(&bytes));
}

#[test]
fn decimal_of_empty_is_zero() {
    assert_eq!("0", serial_decimal(&[]));
}

#[test]
fn decimal_of_zero_bytes_is_zero() {
    assert_eq!("0", serial_decimal(&[0, 0]));
}

#[test]
fn decimal_of_small_values() {
    assert_eq!("7", serial_decimal(&[7]));
    assert_eq!("255", serial_decimal(&[255]));
    assert_eq!("256", serial_decimal(&[1, 0]));
    assert_eq!("1193046", serial_decimal(&[0x12, 0x34, 0x56]));
}

#[test]
fn decimal_of_wide_value() {
    let bytes = [0xFF, 0xFF, 0xFF, 0xFF, 0xFF, 0xFF, 0xFF, 0xFF];
    assert_eq!(u64::MAX.to_string(), serial_decimal(&bytes));
}

#[test]
fn decimal_of_twenty_byte_serial() {
    // 2^152 = 5708990770823839524233143877797980545530986496.
    let mut bytes = [0u8; 20];
    bytes[0] = 1;
    assert_eq!(
        "5708990770823839524233143877797980545530986496",
        serial_decimal(&bytes)
    );
}

#[test]
fn certificate_paths_follow_the_serial() {
    assert_eq!("certificates/ABC", accountcat::cli::certificate_dir("ABC"));
    assert_eq!("key.crt", accountcat::cli::key_file_name());
    assert_eq!("crt.crt", accountcat::cli::certificate_file_name());
}

#[test]
fn decimal_text_recovers_the_bytes() {
    assert_eq!(Some(vec![1, 0]), serial_from_decimal("256"));
    assert_eq!(Some(Vec::new()), serial_from_decimal("0"));
    assert_eq!(Some(vec![0x12, 0x34, 0x56]), serial_from_decimal("1193046"));
    assert_eq!(None, serial_from_decimal(""));
    assert_eq!(None, serial_from_decimal("12a3"));
    assert_eq!(None, serial_from_decimal("-5"));
}

#[test]
fn decimal_round_trip_keeps_the_hex_form() {
    let bytes = [0x00, 0xFE, 0xDC, 0xBA, 0x98, 0x76, 0x54, 0x32, 0x10, 0x0F];
    let decimal = serial_decimal(&bytes);
    let recovered = serial_from_decimal(&decimal).unwrap();
    assert_eq!(serial_hex(&bytes), serial_hex(&recovered));
}

#[test]
fn decimal_of_twenty_byte_round_trip() {
    let mut bytes = [0u8; 20];
    bytes[0] = 0x7F;
    bytes[19] = 0x01;
    let recovered = serial_from_decimal(&serial_decimal(&bytes)).unwrap();
    assert_eq!(bytes.to_vec(), recovered);
}

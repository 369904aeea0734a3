use orbbec_sdk::text::{decimal, first_nul, hex4, nul_error_message, signed_decimal};

#[test]
fn decimal_writes_digits() {
    assert_eq!(decimal(0), "0");
    assert_eq!(decimal(7), "7");
    assert_eq!(decimal(10), "10");
    assert_eq!(decimal(4029), "4029");
    assert_eq!(decimal(1234567890), "1234567890");
    assert_eq!(decimal(u64::MAX), "18446744073709551615");
}

#[test]
fn signed_decimal_writes_the_sign() {
    assert_eq!(signed_decimal(0), "0");
    assert_eq!(signed_decimal(42), "42");
    assert_eq!(signed_decimal(-1), "-1");
    assert_eq!(signed_decimal(-848), "-848");
    assert_eq!(signed_decimal(i64::MAX), "9223372036854775807");
    assert_eq!(signed_decimal(i64::MIN), "-9223372036854775808");
}

#[test]
fn hex4_keeps_leading_zeros() {
    assert_eq!(hex4(0), "0000");
    assert_eq!(hex4(0x066B), "066B");
    assert_eq!(hex4(0x2BC5), "2BC5");
    assert_eq!(hex4(0xABCD), "ABCD");
    assert_eq!(hex4(0x00EF), "00EF");
    assert_eq!(hex4(u16::MAX), "FFFF");
    assert_eq!(hex4(1643), format!("{:04X}", 1643));
}

#[test]
fn first_nul_finds_the_first_zero_byte() {
    assert_eq!(first_nul(""), None);
    assert_eq!(first_nul("High Accuracy"), None);
    assert_eq!(first_nul("\0"), Some(0));
    assert_eq!(first_nul("High\0Accuracy"), Some(4));
    assert_eq!(first_nul("a\0b\0"), Some(1));
    assert_eq!(first_nul("é\0"), Some(2));
}

#[test]
fn nul_message_tells_the_position() {
    assert_eq!(
        nul_error_message("Invalid preset name: ", 4),
        "Invalid preset name: nul byte found in provided data at position: 4"
    );
    assert_eq!(nul_error_message("", 12), "nul byte found in provided data at position: 12");
}

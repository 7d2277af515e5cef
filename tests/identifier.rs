use hyle_verifier::identifier::{decode_identifier, IdentifierError};

#[test]
fn short_identifier_is_right_aligned() {
    let id = decode_identifier("0aff").unwrap();
    let mut want = [0u8; 32];
    want[30] = 0x0a;
    want[31] = 0xff;
    assert_eq!(id, want);
}

#[test]
fn full_length_identifier_fills_all_bytes() {
    let hex: String = (0..32).map(|i| format!("{:02x}", i)).collect();
    let id = decode_identifier(&hex).unwrap();
    let want: Vec<u8> = (0..32).collect();
    assert_eq!(id.to_vec(), want);
}

#[test]
fn upper_case_digits_are_accepted() {
    let id = decode_identifier("ABcd").unwrap();
    assert_eq!(id[30], 0xab);
    assert_eq!(id[31], 0xcd);
    assert!(id[..30].iter().all(|b| *b == 0));
}

#[test]
fn empty_identifier_is_zero() {
    assert_eq!(decode_identifier("").unwrap(), [0u8; 32]);
}

#[test]
fn odd_length_is_invalid() {
    assert_eq!(decode_identifier("abc"), Err(IdentifierError::InvalidHex));
}

#[test]
fn non_hex_character_is_invalid() {
    assert_eq!(decode_identifier("0g"), Err(IdentifierError::InvalidHex));
    assert_eq!(decode_identifier("é1"), Err(IdentifierError::InvalidHex));
}

#[test]
fn too_long_is_invalid() {
    let hex = "00".repeat(33);
    assert_eq!(decode_identifier(&hex), Err(IdentifierError::InvalidHex));
}

#[test]
fn identifier_holds_the_hex_value() {
    let id = decode_identifier("0100").unwrap();
    let value = id.iter().fold(0u128, |acc, b| acc.wrapping_mul(256) + *b as u128);
    assert_eq!(value, 256);
}

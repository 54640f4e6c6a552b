use promise_chain::decode::{decode, encode, DecodeError};

#[test]
fn decodes_single_digit() {
    assert_eq!(decode(&b"2".to_vec()), Ok(2));
}

#[test]
fn decodes_largest_value() {
    assert_eq!(decode(&b"255".to_vec()), Ok(255));
}

#[test]
fn decodes_zero() {
    assert_eq!(decode(&b"0".to_vec()), Ok(0));
}

#[test]
fn decodes_leading_zeros() {
    assert_eq!(decode(&b"007".to_vec()), Ok(7));
}

#[test]
fn rejects_value_out_of_range() {
    assert_eq!(decode(&b"256".to_vec()), Err(DecodeError::NotANumber));
    assert_eq!(decode(&b"1000".to_vec()), Err(DecodeError::NotANumber));
    assert_eq!(decode(&b"99999999999999999999".to_vec()), Err(DecodeError::NotANumber));
}

#[test]
fn rejects_empty_payload() {
    assert_eq!(decode(&Vec::new()), Err(DecodeError::NotANumber));
}

#[test]
fn rejects_non_digit_text() {
    assert_eq!(decode(&b"12a".to_vec()), Err(DecodeError::NotANumber));
    assert_eq!(decode(&b" 1".to_vec()), Err(DecodeError::NotANumber));
    assert_eq!(decode(&b"+2".to_vec()), Err(DecodeError::NotANumber));
    assert_eq!(decode(&b"-1".to_vec()), Err(DecodeError::NotANumber));
    assert_eq!(decode(&b"1.5".to_vec()), Err(DecodeError::NotANumber));
}

#[test]
fn rejects_valid_utf8_that_is_not_ascii_digits() {
    // A two-byte scalar: valid UTF-8, but not a number.
    assert_eq!(decode(&vec![0xc3, 0xa9]), Err(DecodeError::NotANumber));
    // A four-byte scalar.
    assert_eq!(decode(&vec![0xf0, 0x9f, 0x98, 0x80]), Err(DecodeError::NotANumber));
}

#[test]
fn rejects_invalid_utf8() {
    // A lone continuation byte.
    assert_eq!(decode(&vec![0x80]), Err(DecodeError::NotUtf8));
    // A byte that can never appear in UTF-8.
    assert_eq!(decode(&vec![0xff]), Err(DecodeError::NotUtf8));
    // A two-byte lead without its continuation.
    assert_eq!(decode(&vec![0xc3, 0x28]), Err(DecodeError::NotUtf8));
    // An overlong two-byte encoding of an ASCII value.
    assert_eq!(decode(&vec![0xc0, 0xaf]), Err(DecodeError::NotUtf8));
    // A surrogate encoded in three bytes.
    assert_eq!(decode(&vec![0xed, 0xa0, 0x80]), Err(DecodeError::NotUtf8));
    // A truncated three-byte scalar.
    assert_eq!(decode(&vec![0xe2, 0x82]), Err(DecodeError::NotUtf8));
    // A codepoint beyond the Unicode range.
    assert_eq!(decode(&vec![0xf4, 0x90, 0x80, 0x80]), Err(DecodeError::NotUtf8));
    // Digits followed by garbage are still not UTF-8.
    assert_eq!(decode(&vec![0x31, 0xff]), Err(DecodeError::NotUtf8));
}

#[test]
fn accepts_digits_after_multibyte_prefix_as_non_number() {
    // Valid UTF-8 mixing a two-byte scalar with digits: not a number.
    assert_eq!(decode(&vec![0xc3, 0xa9, 0x31]), Err(DecodeError::NotANumber));
}

#[test]
fn encode_gives_canonical_decimal() {
    assert_eq!(encode(0), b"0".to_vec());
    assert_eq!(encode(7), b"7".to_vec());
    assert_eq!(encode(10), b"10".to_vec());
    assert_eq!(encode(255), b"255".to_vec());
    assert_eq!(encode(12345), b"12345".to_vec());
    assert_eq!(
        encode(u128::MAX),
        b"340282366920938463463374607431768211455".to_vec()
    );
}

#[test]
fn round_trip_over_all_u8_values() {
    for n in 0..=255u8 {
        assert_eq!(decode(&encode(n as u128)), Ok(n));
    }
}

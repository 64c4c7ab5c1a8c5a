use rust_shorten_url::codec::{base62_decode, base62_encode, DecodeError};

#[test]
fn encode_zero_is_empty() {
    assert_eq!(base62_encode(0), "");
}

#[test]
fn encode_small_values() {
    assert_eq!(base62_encode(1), "b");
    assert_eq!(base62_encode(25), "z");
    assert_eq!(base62_encode(26), "A");
    assert_eq!(base62_encode(52), "0");
    assert_eq!(base62_encode(61), "9");
}

#[test]
fn encode_least_significant_digit_first() {
    // 62 = 0 + 1 * 62: digit 0 ('a') first, then digit 1 ('b').
    assert_eq!(base62_encode(62), "ab");
    // 125 = 1 + 2 * 62.
    assert_eq!(base62_encode(125), "bc");
}

#[test]
fn decode_empty_is_zero() {
    assert_eq!(base62_decode(""), Ok(0));
}

#[test]
fn decode_rejects_symbol_outside_alphabet() {
    assert_eq!(base62_decode("!"), Err(DecodeError::InvalidSymbol));
    assert_eq!(base62_decode("ab!cd"), Err(DecodeError::InvalidSymbol));
    assert_eq!(base62_decode("ab cd"), Err(DecodeError::InvalidSymbol));
}

#[test]
fn decode_exact_values() {
    assert_eq!(base62_decode("b"), Ok(1));
    assert_eq!(base62_decode("ab"), Ok(62));
    assert_eq!(base62_decode("bc"), Ok(125));
    assert_eq!(base62_decode("9"), Ok(61));
}

#[test]
fn round_trip_samples() {
    for n in [1u64, 7, 61, 62, 63, 3843, 3844, 1_000_000_007, u64::MAX - 1, u64::MAX] {
        assert_eq!(base62_decode(&base62_encode(n)), Ok(n));
    }
}

#[test]
fn decode_reports_overflow_past_sixty_four_bits() {
    // Eleven highest digits: 62^11 - 1, which is larger than u64::MAX.
    assert_eq!(base62_decode("99999999999"), Err(DecodeError::Overflow));
}

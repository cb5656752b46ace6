use attested_aggregation::binary64::{is_finite, le_bytes, EXPONENT_MASK};

#[test]
fn ordinary_prices_are_finite() {
    assert!(is_finite(100.0f64.to_bits()));
    assert!(is_finite(0.0f64.to_bits()));
    assert!(is_finite((-0.0f64).to_bits()));
    assert!(is_finite(43250.17f64.to_bits()));
    assert!(is_finite((-1.5f64).to_bits()));
}

#[test]
fn extremes_of_the_finite_range_are_finite() {
    assert!(is_finite(f64::MAX.to_bits()));
    assert!(is_finite(f64::MIN.to_bits()));
    assert!(is_finite(f64::MIN_POSITIVE.to_bits()));
    assert!(is_finite(f64::from_bits(1).to_bits()));
    assert!(is_finite(0x7fef_ffff_ffff_ffff));
}

#[test]
fn infinities_are_not_finite() {
    assert!(!is_finite(f64::INFINITY.to_bits()));
    assert!(!is_finite(f64::NEG_INFINITY.to_bits()));
    assert!(!is_finite(0x7ff0_0000_0000_0000));
    assert!(!is_finite(0xfff0_0000_0000_0000));
}

#[test]
fn nans_are_not_finite() {
    assert!(!is_finite(f64::NAN.to_bits()));
    assert!(!is_finite(0x7ff0_0000_0000_0001));
    assert!(!is_finite(0xffff_ffff_ffff_ffff));
    assert!(!is_finite(0x7ff8_0000_0000_0000));
}

#[test]
fn finiteness_agrees_with_the_float_type() {
    let patterns: [u64; 8] = [
        0,
        1,
        0x3ff0_0000_0000_0000,
        0x4059_0000_0000_0000,
        0x7fef_ffff_ffff_ffff,
        0x7ff0_0000_0000_0000,
        0x7ff0_0000_0000_0001,
        0xfff8_0000_0000_0000,
    ];
    for bits in patterns {
        assert_eq!(is_finite(bits), f64::from_bits(bits).is_finite());
    }
}

#[test]
fn exponent_mask_covers_eleven_bits() {
    assert_eq!(EXPONENT_MASK, 0x7ff0_0000_0000_0000);
    assert_eq!(EXPONENT_MASK.count_ones(), 11);
}

#[test]
fn encoding_of_one_hundred() {
    assert_eq!(100.0f64.to_bits(), 0x4059_0000_0000_0000);
    assert_eq!(le_bytes(100.0f64.to_bits()), vec![0, 0, 0, 0, 0, 0, 0x59, 0x40]);
}

#[test]
fn encoding_puts_the_lowest_byte_first() {
    assert_eq!(
        le_bytes(0x0102_0304_0506_0708),
        vec![0x08, 0x07, 0x06, 0x05, 0x04, 0x03, 0x02, 0x01]
    );
    assert_eq!(le_bytes(0), vec![0u8; 8]);
    assert_eq!(le_bytes(u64::MAX), vec![0xffu8; 8]);
    assert_eq!(le_bytes(1), vec![1, 0, 0, 0, 0, 0, 0, 0]);
    assert_eq!(le_bytes(1 << 63), vec![0, 0, 0, 0, 0, 0, 0, 0x80]);
}

#[test]
fn encoding_agrees_with_the_float_type() {
    let prices: [f64; 6] = [100.0, 0.1, -2.5, 43250.17, 1e-300, f64::MAX];
    for price in prices {
        assert_eq!(le_bytes(price.to_bits()), price.to_le_bytes().to_vec());
    }
}

#[test]
fn different_numbers_have_different_encodings() {
    assert_ne!(le_bytes(100.0f64.to_bits()), le_bytes(100.00000000000001f64.to_bits()));
    assert_ne!(le_bytes(0.0f64.to_bits()), le_bytes((-0.0f64).to_bits()));
}

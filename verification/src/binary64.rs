//! Binary64 numbers as bit patterns: the finiteness test and the
//! little-endian byte encoding that signatures are made over.

use vstd::prelude::*;

verus! {

/// Mask of the eleven exponent bits of a binary64 pattern.
pub const EXPONENT_MASK: u64 = 0x7ff0_0000_0000_0000;

/// A pattern stands for a finite number exactly when its exponent field is not
/// all ones; all ones marks the infinities and the NaNs.
pub open spec fn spec_is_finite(bits: u64) -> bool {
    bits & EXPONENT_MASK != EXPONENT_MASK
}

/// Whether `bits` stands for a finite number.
pub fn is_finite(bits: u64) -> (finite: bool)
    ensures
        finite == spec_is_finite(bits),
{
    bits & EXPONENT_MASK != EXPONENT_MASK
}

/// Byte `i` of the little-endian encoding: bits `8 * i` to `8 * i + 7`.
pub open spec fn le_byte(bits: u64, i: int) -> u8 {
    ((bits >> ((8 * i) as u64)) & 0xff) as u8
}

/// The little-endian encoding of a pattern: eight bytes, lowest first.
pub open spec fn spec_le_bytes(bits: u64) -> Seq<u8> {
    Seq::new(8, |i: int| le_byte(bits, i))
}

/// The pattern that eight little-endian bytes spell.
pub open spec fn spec_from_le_bytes(bytes: Seq<u8>) -> u64
    recommends
        bytes.len() == 8,
{
    (bytes[0] as u64) | (bytes[1] as u64) << 8 | (bytes[2] as u64) << 16 | (bytes[3] as u64) << 24
        | (bytes[4] as u64) << 32 | (bytes[5] as u64) << 40 | (bytes[6] as u64) << 48 | (
    bytes[7] as u64) << 56
}

/// Encodes a pattern as eight bytes, lowest first.
pub fn le_bytes(bits: u64) -> (out: Vec<u8>)
    ensures
        out@ == spec_le_bytes(bits),
{
    let mut out: Vec<u8> = Vec::new();
    let mut i: usize = 0;
    while i < 8
        invariant
            i <= 8,
            out@.len() == i,
            forall|j: int| 0 <= j < i ==> out@[j] == le_byte(bits, j),
        decreases 8 - i,
    {
        let shift: u64 = 8 * (i as u64);
        let low: u64 = (bits >> shift) & 0xff;
        assert(low <= 0xff) by (bit_vector)
            requires
                low == (bits >> shift) & 0xff,
        ;
        out.push(low as u8);
        i += 1;
    }
    out
}

/// Decoding undoes encoding.
pub proof fn lemma_le_bytes_round_trip(bits: u64)
    ensures
        spec_le_bytes(bits).len() == 8,
        spec_from_le_bytes(spec_le_bytes(bits)) == bits,
{
    let s = spec_le_bytes(bits);
    assert(s[0] == le_byte(bits, 0) && s[1] == le_byte(bits, 1) && s[2] == le_byte(bits, 2)
        && s[3] == le_byte(bits, 3) && s[4] == le_byte(bits, 4) && s[5] == le_byte(bits, 5)
        && s[6] == le_byte(bits, 6) && s[7] == le_byte(bits, 7));
    assert((((bits >> 0u64) & 0xff) as u8) as u64 | ((((bits >> 8u64) & 0xff) as u8) as u64) << 8
        | ((((bits >> 16u64) & 0xff) as u8) as u64) << 16 | ((((bits >> 24u64) & 0xff) as u8) as u64)
        << 24 | ((((bits >> 32u64) & 0xff) as u8) as u64) << 32 | ((((bits >> 40u64) & 0xff) as u8) as u64)
        << 40 | ((((bits >> 48u64) & 0xff) as u8) as u64) << 48 | ((((bits >> 56u64) & 0xff) as u8) as u64)
        << 56 == bits) by (bit_vector);
}

/// Two patterns with the same encoding are the same pattern: a signature over
/// the encoding speaks of one number only.
pub proof fn lemma_le_bytes_injective(a: u64, b: u64)
    requires
        spec_le_bytes(a) == spec_le_bytes(b),
    ensures
        a == b,
{
    lemma_le_bytes_round_trip(a);
    lemma_le_bytes_round_trip(b);
}

} // verus!

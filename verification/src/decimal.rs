//! The form in which a mean travels as text: a decimal with exactly twenty
//! digits after the point.

use vstd::prelude::*;

verus! {

/// Digits after the decimal point.
pub const FRACTION_DIGITS: usize = 20;

/// ASCII `-`.
pub const MINUS: u8 = 0x2d;

/// ASCII `.`.
pub const POINT: u8 = 0x2e;

/// An ASCII decimal digit.
pub open spec fn is_digit(byte: u8) -> bool {
    0x30 <= byte <= 0x39
}

/// Where the digits begin: after a leading minus sign, if there is one.
pub open spec fn digits_start(text: Seq<u8>) -> int {
    if text.len() > 0 && text[0] == MINUS {
        1
    } else {
        0
    }
}

/// Where the decimal point must stand: twenty digits before the end.
pub open spec fn point_index(text: Seq<u8>) -> int {
    text.len() - FRACTION_DIGITS - 1
}

/// The text is an optional minus sign, one or more digits, a point, and
/// exactly twenty digits.
pub open spec fn spec_is_fixed_decimal(text: Seq<u8>) -> bool {
    &&& digits_start(text) < point_index(text)
    &&& text[point_index(text)] == POINT
    &&& forall|i: int| digits_start(text) <= i < point_index(text) ==> is_digit(#[trigger] text[i])
    &&& forall|i: int| point_index(text) < i < text.len() ==> is_digit(#[trigger] text[i])
}

fn digit(byte: u8) -> (yes: bool)
    ensures
        yes == is_digit(byte),
{
    0x30 <= byte && byte <= 0x39
}

/// Whether every byte of `text` from `from` up to `to` is a digit.
fn all_digits(text: &[u8], from: usize, to: usize) -> (yes: bool)
    requires
        from <= to <= text@.len(),
    ensures
        yes == (forall|i: int| from <= i < to ==> is_digit(#[trigger] text@[i])),
{
    let mut i: usize = from;
    while i < to
        invariant
            from <= i <= to <= text@.len(),
            forall|j: int| from <= j < i ==> is_digit(#[trigger] text@[j]),
        decreases to - i,
    {
        if !digit(text[i]) {
            return false;
        }
        i += 1;
    }
    true
}

/// Whether `text` is a decimal with exactly twenty digits after the point.
pub fn is_fixed_decimal(text: &[u8]) -> (yes: bool)
    ensures
        yes == spec_is_fixed_decimal(text@),
{
    let len: usize = text.len();
    let start: usize = if len > 0 && text[0] == MINUS {
        1
    } else {
        0
    };
    if len < FRACTION_DIGITS + 2 + start {
        return false;
    }
    let point: usize = len - FRACTION_DIGITS - 1;
    text[point] == POINT && all_digits(text, start, point) && all_digits(text, point + 1, len)
}

} // verus!

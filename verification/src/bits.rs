//! Bit extraction on machine words, done by the `bit_field` crate.

use bit_field::BitField;
use vstd::prelude::*;

verus! {

/// Whether bit `bit` of `value` is one; bit 0 is the least significant.
pub open spec fn bit_is_set(value: usize, bit: usize) -> bool {
    value & (1usize << bit) != 0
}

/// The bits `start..end` of `value`, moved down to bit 0.
pub open spec fn bit_range(value: u64, start: u64, end: u64) -> u64 {
    if start == end {
        0
    } else {
        ((value << ((64 - end) as u64)) >> ((64 - end) as u64)) >> start
    }
}

/// Calls `bit_field::BitField::get_bit` on a `usize`.
///
/// Trusted: the crate masks `value` with `1 << bit` and tests the outcome
/// against zero; it panics when `bit` is not below the word's width.
#[verifier::external_body]
pub(crate) fn get_bit(value: usize, bit: usize) -> (set: bool)
    requires
        bit < usize::BITS,
    ensures
        set == bit_is_set(value, bit),
{
    value.get_bit(bit)
}

/// Calls `bit_field::BitField::get_bits` on a `u64` with the range `start..end`.
///
/// Trusted: for an empty range the crate returns zero; otherwise it shifts
/// `value` left and back right by `64 - end` to drop the high bits, then
/// right by `start`. It panics unless `start < 64`, `end <= 64` and
/// `start <= end`.
#[verifier::external_body]
pub(crate) fn get_bits(value: u64, start: u64, end: u64) -> (field: u64)
    requires
        start < 64,
        end <= 64,
        start <= end,
    ensures
        field == bit_range(value, start, end),
{
    value.get_bits(start as usize..end as usize)
}

} // verus!

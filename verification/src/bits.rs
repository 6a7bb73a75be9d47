//! Single-bit access to 32-bit registers.

use bit_field::BitField;
use vstd::prelude::*;

verus! {

/// Whether bit `index` of `word` is set. Bit 0 is the least significant one.
pub open spec fn bit_of(word: u32, index: u32) -> bool {
    word & (1u32 << index) != 0
}

/// `word` with bit `index` forced to `value` and every other bit kept.
pub open spec fn with_bit(word: u32, index: u32, value: bool) -> u32 {
    if value {
        word | (1u32 << index)
    } else {
        word & !(1u32 << index)
    }
}

/// Reads one bit with `bit_field::BitField::get_bit` on `u32`.
///
/// Trusted, not proved: for an index below 32 the outside method returns
/// whether `word & (1 << index)` is non-zero. At 32 and above it panics, so
/// those indexes are excluded.
#[verifier::external_body]
pub(crate) fn get_bit(word: u32, index: u32) -> (r: bool)
    requires
        index < 32,
    ensures
        r == bit_of(word, index),
{
    word.get_bit(index as usize)
}

/// Writes one bit with `bit_field::BitField::set_bit` on `u32`.
///
/// Trusted, not proved: for an index below 32 the outside method ors
/// `1 << index` into the word when `value` is true and clears that bit
/// otherwise, leaving the other bits alone. At 32 and above it panics, so
/// those indexes are excluded.
#[verifier::external_body]
pub(crate) fn set_bit(word: u32, index: u32, value: bool) -> (r: u32)
    requires
        index < 32,
    ensures
        r == with_bit(word, index, value),
{
    let mut w = word;
    w.set_bit(index as usize, value);
    w
}

} // verus!

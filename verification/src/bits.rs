//! Bit-range extraction on 32-bit words, provided by the `bit_field` crate.

use bit_field::BitField;
use vstd::arithmetic::power2::pow2;
use vstd::prelude::*;

verus! {

/// The bits `start..end` of `value`, shifted down to bit 0: the integer that
/// the binary digits of `value` at positions `start` to `end - 1` spell.
pub open spec fn bit_range(value: u32, start: nat, end: nat) -> int {
    (value as int / pow2(start) as int) % pow2((end - start) as nat) as int
}

/// Calls `<u32 as bit_field::BitField>::get_bits` on `start..end`.
///
/// Claimed: the call returns the bits `start..end` of `value` moved down to
/// bit 0 (zero for an empty range). The crate masks away the bits at or above
/// `end` by shifting left and back, then shifts right by `start`. It panics
/// unless `start < 32`, `end <= 32` and `start <= end`, which `requires` rules out.
#[verifier::external_body]
pub(crate) fn u32_get_bits(value: u32, start: usize, end: usize) -> (r: u32)
    requires
        start < 32,
        start <= end <= 32,
    ensures
        r as int == bit_range(value, start as nat, end as nat),
{
    value.get_bits(start..end)
}

} // verus!

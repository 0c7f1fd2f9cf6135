//! Power-of-two alignment of addresses.

use vstd::prelude::*;
use vstd::arithmetic::power2::pow2;
use vstd::bits::{lemma_u64_low_bits_mask_is_mod, lemma_u64_pow2_no_overflow, lemma_u64_shl_is_mul};
use vstd::std_specs::bits::{axiom_u64_trailing_zeros, u64_trailing_zeros};

use crate::error::Error;

verus! {

/// `value` is a multiple of `alignment`.
pub open spec fn is_aligned(value: u64, alignment: u64) -> bool {
    value % alignment == 0
}

/// What validating `value` against `alignment` reports.
pub open spec fn validated(value: u64, alignment: u64) -> Result<(), Error> {
    if is_aligned(value, alignment) {
        Ok(())
    } else {
        Err(Error::NotAligned { alignment, address: value })
    }
}

/// The bits of a cell that held `cell` after an attempt to store `value`
/// under the given alignment: `value` when it is aligned, `cell` otherwise.
pub open spec fn committed(cell: u64, value: u64, alignment: u64) -> u64 {
    if is_aligned(value, alignment) {
        value
    } else {
        cell
    }
}

/// Storing a value a second time leaves the cell as the first attempt left
/// it.
pub proof fn lemma_committed_idempotent(cell: u64, value: u64, alignment: u64)
    ensures
        committed(committed(cell, value, alignment), value, alignment) == committed(
            cell,
            value,
            alignment,
        ),
{
}

/// An aligned cell stays aligned, whatever one attempts to store in it.
pub proof fn lemma_committed_stays_aligned(cell: u64, value: u64, alignment: u64)
    requires
        is_aligned(cell, alignment),
    ensures
        is_aligned(committed(cell, value, alignment), alignment),
{
}

/// A value has at least `bits` trailing zero bits exactly when it is a
/// multiple of `2^bits`.
pub proof fn lemma_trailing_zeros_alignment(value: u64, bits: u32)
    requires
        bits < 64,
    ensures
        u64_trailing_zeros(value) >= bits <==> is_aligned(value, 1u64 << bits),
{
    let t: u64 = u64_trailing_zeros(value) as u64;
    let k: u64 = bits as u64;
    let unit: u64 = 1u64 << k;
    assert(unit == pow2(k as nat) && unit > 0) by {
        lemma_u64_pow2_no_overflow(k as nat);
        lemma_u64_shl_is_mul(1, k);
    }
    let mask: u64 = (unit - 1) as u64;
    assert(value & mask == value % unit) by {
        lemma_u64_low_bits_mask_is_mod(value, k as nat);
    }
    axiom_u64_trailing_zeros(value);
    let rest: u64 = (64 - t) as u64;
    assert(value << rest == 0);
    assert(k <= t ==> value & mask == 0) by (bit_vector)
        requires
            k < 64,
            t <= 64,
            rest == 64 - t,
            value << rest == 0,
            unit == 1u64 << k,
            mask == unit - 1,
    ;
    assert(t < k ==> value & mask != 0) by (bit_vector)
        requires
            k < 64,
            t < 64 ==> (value >> t) & 1 == 1,
            unit == 1u64 << k,
            mask == unit - 1,
    ;
}

/// Validates `value` against the alignment `2^bits`.
pub(crate) fn check_alignment(value: u64, bits: u32) -> (r: Result<(), Error>)
    requires
        bits < 64,
    ensures
        r == validated(value, 1u64 << bits),
{
    proof {
        lemma_trailing_zeros_alignment(value, bits);
    }
    if value.trailing_zeros() >= bits {
        Ok(())
    } else {
        Err(Error::NotAligned { alignment: 1u64 << bits, address: value })
    }
}

} // verus!

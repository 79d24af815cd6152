//! The validation rule shared by every bit-width constructor: a number fits
//! in `width` bits when it has no bit set above the lowest `width`.

use vstd::arithmetic::power2::{lemma2_to64, lemma_pow2_strictly_increases, pow2};
use vstd::bits::lemma_u64_shl_is_mul;
use vstd::prelude::*;

verus! {

/// The largest number of `width` bits: the lowest `width` bits set.
pub open spec fn low_mask(width: nat) -> nat {
    (pow2(width) - 1) as nat
}

/// `2^width` fits in 64 bits with room to spare when `width <= 32`.
pub proof fn lemma_pow2_bound(width: nat)
    requires
        width <= 32,
    ensures
        1 <= pow2(width) <= 0x1_0000_0000,
{
    lemma2_to64();
    if width < 32 {
        lemma_pow2_strictly_increases(width, 32);
    }
    if 0 < width {
        lemma_pow2_strictly_increases(0, width);
    }
}

/// The rule in its two forms: `v` has no bit outside the mask exactly when
/// `v` is below `2^width`.
pub proof fn lemma_mask_rule(v: u64, width: nat)
    requires
        width <= 32,
    ensures
        (v & !(low_mask(width) as u64) == 0) <==> v < pow2(width),
{
    let w: u64 = width as u64;
    lemma_pow2_bound(width);
    lemma_u64_shl_is_mul(1, w);
    let top: u64 = 1u64 << w;
    assert(top == pow2(width));
    let mask: u64 = (top - 1) as u64;
    assert((v & !mask == 0) <==> v < top) by (bit_vector)
        requires
            w <= 32,
            top == 1u64 << w,
            mask == (top - 1) as u64,
    ;
}

/// The mask for `width` bits.
pub fn mask_of(width: u32) -> (mask: u64)
    requires
        width <= 32,
    ensures
        mask == low_mask(width as nat),
{
    let w: u64 = width as u64;
    proof {
        lemma_pow2_bound(width as nat);
        lemma_u64_shl_is_mul(1, w);
    }
    (1u64 << w) - 1
}

/// Whether `other` can be held in `width` bits, decided by the mask.
pub fn fits_width(other: u64, width: u32) -> (ok: bool)
    requires
        width <= 32,
    ensures
        ok <==> other < pow2(width as nat),
{
    let mask: u64 = mask_of(width);
    proof {
        lemma_mask_rule(other, width as nat);
    }
    other & !mask == 0
}

} // verus!

//! The integer part of the standard Laplace sampler: the deviate on
//! `(0, 1)` and the half of the interval that it falls in.

use vstd::prelude::*;
use crate::engine::is_zero;
use crate::uniform::{denominator, open_state, xorshift160_0_open_1_open};

verus! {

/// Whether the deviate with this numerator is below one half.
pub open spec fn below_half(numerator: u32) -> bool {
    2 * numerator < denominator()
}

/// No deviate is one half exactly: the denominator is odd.
pub proof fn lemma_never_half(numerator: u32)
    ensures
        2 * numerator != denominator(),
{
}

/// On either side of one half, the number whose logarithm the sampler
/// takes lies strictly between 0 and 1, the deviate being on `(0, 1)`:
/// below one half it is twice the deviate, above it twice the rest to 1.
pub proof fn lemma_logarithm_defined(numerator: u32)
    requires
        0 < numerator < denominator(),
    ensures
        below_half(numerator) ==> 0 < 2 * numerator < denominator(),
        !below_half(numerator) ==> 0 < 2 * (denominator() - numerator) < denominator(),
{
}

/// Draws the deviate of one Laplace sample: its numerator over `u32::MAX`,
/// and whether it is below one half, in which case the sample is the
/// logarithm of twice the deviate, and else the negated logarithm of twice
/// the rest to 1.
pub fn standard_laplace_deviate(xyzuv: &mut [u32; 5]) -> (r: (u32, bool))
    requires
        !is_zero(old(xyzuv)@),
    ensures
        final(xyzuv)@ == open_state(old(xyzuv)@),
        r.0 == final(xyzuv)@[4],
        r.1 == below_half(r.0),
        0 < r.0 < denominator(),
        !is_zero(final(xyzuv)@),
{
    let u: u32 = xorshift160_0_open_1_open(xyzuv);
    (u, u < 0x8000_0000_u32)
}

} // verus!

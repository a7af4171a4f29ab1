//! The integer part of the standard normal sampler: how one word of the
//! generator is read as a sign, a position under the density and a
//! refinement, and which generator feeds the tail.

use vstd::prelude::*;
use crate::engine::{is_zero, step, xorshift160};
use crate::uniform::{denominator, open_state, xorshift160_0_1, xorshift160_0_open_1_open};

verus! {

/// Positions below this one lie in the core of the density, where a draw is
/// accepted as it is.
pub const K_NORMAL: u32 = 30783_u32;

/// The largest position: sixteen bits.
pub const HALF_BIT_NORMAL: u32 = 65535_u32;

/// One word of the generator, read for the normal sampler.
#[derive(Clone, Copy, Debug, PartialEq, Eq, Structural)]
pub struct NormalWord {
    /// The lowest bit: set for a positive sample.
    pub positive: bool,
    /// The next sixteen bits: the position.
    pub magnitude: u32,
    /// The highest fifteen bits: the refinement.
    pub refinement: u32,
}

impl NormalWord {
    /// The reading of the word `w`.
    pub open spec fn of(w: u32) -> NormalWord {
        NormalWord {
            positive: w % 2 == 1,
            magnitude: ((w / 2) % 65536) as u32,
            refinement: (w / 131072) as u32,
        }
    }

    /// The word that reads as `self`.
    pub open spec fn word(self) -> int {
        self.refinement * 131072 + self.magnitude * 2 + if self.positive {
            1int
        } else {
            0int
        }
    }

    /// Whether the fields are within their bits.
    pub open spec fn in_range(self) -> bool {
        self.magnitude <= HALF_BIT_NORMAL && self.refinement <= 32767
    }

    /// Reads a word.
    pub fn new(w: u32) -> (r: NormalWord)
        ensures
            r == NormalWord::of(w),
            r.in_range(),
            r.word() == w,
    {
        let u_m_minus_1_bit_integer: u32 = w >> 1_u32;
        let positive: bool = (w & 1_u32) == 1_u32;
        let magnitude: u32 = u_m_minus_1_bit_integer & HALF_BIT_NORMAL;
        let refinement: u32 = u_m_minus_1_bit_integer >> 16_u32;
        assert((w & 1u32) == w % 2u32) by (bit_vector);
        assert(((w >> 1u32) & 65535u32) == (w / 2u32) % 65536u32) by (bit_vector);
        assert(((w >> 1u32) >> 16u32) == w / 131072u32) by (bit_vector);
        NormalWord { positive, magnitude, refinement }
    }

    /// Whether the position lies in the core, so that the sample is the
    /// position scaled, with the sign.
    pub fn in_core(&self) -> (b: bool)
        ensures
            b == (self.magnitude < K_NORMAL),
    {
        self.magnitude < K_NORMAL
    }
}

/// Reading and putting together again gives the word back: nothing of the
/// word is lost, and nothing is read twice.
pub proof fn lemma_word_round_trip(w: u32)
    ensures
        NormalWord::of(w).word() == w,
        NormalWord::of(w).in_range(),
{
}

/// Every reading within range is the reading of exactly one word.
pub proof fn lemma_reading_round_trip(r: NormalWord)
    requires
        r.in_range(),
    ensures
        0 <= r.word() <= u32::MAX,
        NormalWord::of(r.word() as u32) == r,
{
}

/// Draws the word of one normal sample from the first generator.
pub fn standard_normal_word(xyzuv0: &mut [u32; 5]) -> (r: NormalWord)
    ensures
        final(xyzuv0)@ == step(old(xyzuv0)@),
        r == NormalWord::of(final(xyzuv0)@[4]),
        is_zero(final(xyzuv0)@) == is_zero(old(xyzuv0)@),
{
    let w: u32 = xorshift160(xyzuv0);
    NormalWord::new(w)
}

/// Draws the two deviates of one attempt at the tail: the numerator of one
/// on `(0, 1)` from the first generator, then the numerator of one on
/// `[0, 1]` from the second.
pub fn standard_normal_foot_pair(xyzuv0: &mut [u32; 5], xyzuv1: &mut [u32; 5]) -> (r: (u32, u32))
    requires
        !is_zero(old(xyzuv0)@),
    ensures
        final(xyzuv0)@ == open_state(old(xyzuv0)@),
        final(xyzuv1)@ == step(old(xyzuv1)@),
        r.0 == final(xyzuv0)@[4],
        r.1 == final(xyzuv1)@[4],
        0 < r.0 < denominator(),
        !is_zero(final(xyzuv0)@),
        is_zero(final(xyzuv1)@) == is_zero(old(xyzuv1)@),
{
    let u_1: u32 = xorshift160_0_open_1_open(xyzuv0);
    let u_2: u32 = xorshift160_0_1(xyzuv1);
    proof {
        crate::engine::lemma_step_keeps_zero_apart(old(xyzuv1)@);
    }
    (u_1, u_2)
}

} // verus!

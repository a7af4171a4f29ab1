//! Uniform deviates on the closed, the right-open and the open unit
//! interval, each given by its numerator over `u32::MAX`.
//!
//! The right-open and the open form draw again while the word drawn is an
//! excluded endpoint. Neither loop can run for long: the words drawn become
//! the state, and a state made of excluded words alone produces a word that
//! is not excluded.

use vstd::prelude::*;
use crate::engine::{is_zero, scramble, step, step_n, xorshift160};

verus! {

/// The denominator of every deviate.
pub open spec fn denominator() -> u32 {
    0xFFFF_FFFFu32
}

/// Whether the word is an endpoint of the unit interval: the numerator of
/// 0 or of 1.
pub open spec fn is_endpoint(w: u32) -> bool {
    w == 0 || w == denominator()
}

/// How many words at the end of the state are the numerator of 1.
pub open spec fn ones_at_end(s: Seq<u32>) -> nat {
    if s[4] != denominator() {
        0
    } else if s[3] != denominator() {
        1
    } else if s[2] != denominator() {
        2
    } else if s[1] != denominator() {
        3
    } else if s[0] != denominator() {
        4
    } else {
        5
    }
}

/// How many words at the end of the state are endpoints.
pub open spec fn endpoints_at_end(s: Seq<u32>) -> nat {
    if !is_endpoint(s[4]) {
        0
    } else if !is_endpoint(s[3]) {
        1
    } else if !is_endpoint(s[2]) {
        2
    } else if !is_endpoint(s[1]) {
        3
    } else if !is_endpoint(s[0]) {
        4
    } else {
        5
    }
}

/// How many words at the end of the state are zero.
pub open spec fn zeros_at_end(s: Seq<u32>) -> nat {
    if s[4] != 0 {
        0
    } else if s[3] != 0 {
        1
    } else if s[2] != 0 {
        2
    } else if s[1] != 0 {
        3
    } else if s[0] != 0 {
        4
    } else {
        5
    }
}

/// A bound on the draws that the right-open form rejects from state `s`.
pub open spec fn right_open_budget(s: Seq<u32>) -> nat {
    (5 - ones_at_end(s)) as nat
}

/// A bound on the draws that the open form rejects from a state `s` that is
/// not zero.
pub open spec fn open_budget(s: Seq<u32>) -> nat {
    if endpoints_at_end(s) < 5 {
        (8 - endpoints_at_end(s)) as nat
    } else if 1 <= zeros_at_end(s) <= 4 {
        (4 - zeros_at_end(s)) as nat
    } else {
        0
    }
}

/// The state in which the right-open form leaves a generator that it found
/// in state `s`: the first successor whose last word is not the numerator
/// of 1.
pub open spec fn right_open_state(s: Seq<u32>) -> Seq<u32>
    decreases right_open_budget(s),
    via right_open_state_decreases
{
    if step(s)[4] == denominator() {
        right_open_state(step(s))
    } else {
        step(s)
    }
}

#[via_fn]
proof fn right_open_state_decreases(s: Seq<u32>) {
    if step(s)[4] == denominator() {
        lemma_right_open_rejection(s);
    }
}

/// The state in which the open form leaves a generator that it found in a
/// state `s` other than zero: the first successor whose last word is no
/// endpoint.
pub open spec fn open_state(s: Seq<u32>) -> Seq<u32>
    decreases open_budget(s),
    when s.len() == 5 && !is_zero(s)
    via open_state_decreases
{
    if is_endpoint(step(s)[4]) {
        open_state(step(s))
    } else {
        step(s)
    }
}

#[via_fn]
proof fn open_state_decreases(s: Seq<u32>) {
    if is_endpoint(step(s)[4]) {
        lemma_open_rejection(s);
    }
}

/// A rejected draw of the right-open form uses up budget.
pub proof fn lemma_right_open_rejection(s: Seq<u32>)
    requires
        step(s)[4] == denominator(),
    ensures
        right_open_budget(step(s)) < right_open_budget(s),
{
    assert(scramble(0xFFFF_FFFFu32, 0xFFFF_FFFFu32) != 0xFFFF_FFFFu32) by (bit_vector);
}

/// A rejected draw of the open form uses up budget, and leaves a state that
/// is not zero.
pub proof fn lemma_open_rejection(s: Seq<u32>)
    requires
        s.len() == 5,
        !is_zero(s),
        is_endpoint(step(s)[4]),
    ensures
        open_budget(step(s)) < open_budget(s),
        !is_zero(step(s)),
{
    crate::engine::lemma_step_keeps_zero_apart(s);
    assert(!is_endpoint(scramble(0xFFFF_FFFFu32, 0xFFFF_FFFFu32))) by (bit_vector);
    assert(!is_endpoint(scramble(0xFFFF_FFFFu32, 0u32))) by (bit_vector);
    assert(!is_endpoint(scramble(0u32, 0xFFFF_FFFFu32))) by (bit_vector);
    assert(scramble(0u32, 0u32) == 0u32) by (bit_vector);
}

/// The right-open form stops, within six steps, on a word below the
/// denominator: it never rejects more than five draws in a row.
pub proof fn lemma_right_open_bounded(s: Seq<u32>)
    ensures
        right_open_state(s)[4] != denominator(),
        exists|k: nat|
            1 <= k <= right_open_budget(s) + 1 && right_open_state(s) == #[trigger] step_n(s, k),
    decreases right_open_budget(s),
{
    if step(s)[4] == denominator() {
        lemma_right_open_rejection(s);
        lemma_right_open_bounded(step(s));
        let k = choose|k: nat|
            1 <= k <= right_open_budget(step(s)) + 1 && right_open_state(step(s)) == #[trigger] step_n(
                step(s),
                k,
            );
        assert(step_n(s, k + 1) == step_n(step(s), k));
    } else {
        assert(step_n(s, 1) == step_n(step(s), 0));
    }
}

/// From a state other than zero the open form stops, within nine steps, on
/// a word that is no endpoint: it never rejects more than eight draws in a
/// row.
pub proof fn lemma_open_bounded(s: Seq<u32>)
    requires
        s.len() == 5,
        !is_zero(s),
    ensures
        !is_endpoint(open_state(s)[4]),
        !is_zero(open_state(s)),
        exists|k: nat| 1 <= k <= open_budget(s) + 1 && open_state(s) == #[trigger] step_n(s, k),
    decreases open_budget(s),
{
    crate::engine::lemma_step_keeps_zero_apart(s);
    if is_endpoint(step(s)[4]) {
        lemma_open_rejection(s);
        lemma_open_bounded(step(s));
        let k = choose|k: nat|
            1 <= k <= open_budget(step(s)) + 1 && open_state(step(s)) == #[trigger] step_n(
                step(s),
                k,
            );
        assert(step_n(s, k + 1) == step_n(step(s), k));
    } else {
        assert(step_n(s, 1) == step_n(step(s), 0));
    }
}

/// The budgets are small: five and eight.
pub proof fn lemma_budgets(s: Seq<u32>)
    ensures
        right_open_budget(s) <= 5,
        open_budget(s) <= 8,
{
}

/// A deviate on `[0, 1]`: the numerator, over `u32::MAX`, is the next word
/// of the generator.
pub fn xorshift160_0_1(xyzuv: &mut [u32; 5]) -> (numerator: u32)
    ensures
        final(xyzuv)@ == step(old(xyzuv)@),
        numerator == final(xyzuv)@[4],
        0 <= numerator <= denominator(),
        is_zero(final(xyzuv)@) == is_zero(old(xyzuv)@),
{
    xorshift160(xyzuv)
}

/// A deviate on `[0, 1)`: the numerator, over `u32::MAX`, is the first word
/// drawn that is below `u32::MAX`.
pub fn xorshift160_0_1_open(xyzuv: &mut [u32; 5]) -> (numerator: u32)
    ensures
        final(xyzuv)@ == right_open_state(old(xyzuv)@),
        numerator == final(xyzuv)@[4],
        0 <= numerator < denominator(),
        is_zero(final(xyzuv)@) == is_zero(old(xyzuv)@),
{
    loop
        invariant
            right_open_state(xyzuv@) == right_open_state(old(xyzuv)@),
            is_zero(xyzuv@) == is_zero(old(xyzuv)@),
        decreases right_open_budget(xyzuv@),
    {
        proof {
            if step(xyzuv@)[4] == denominator() {
                lemma_right_open_rejection(xyzuv@);
            }
        }
        let _ = xorshift160(xyzuv);
        if xyzuv[4] != u32::MAX {
            return xyzuv[4];
        }
    }
}

/// A deviate on `(0, 1)`: the numerator, over `u32::MAX`, is the first word
/// drawn that is neither 0 nor `u32::MAX`. The generator must not be in the
/// zero state, which produces nothing but 0.
pub fn xorshift160_0_open_1_open(xyzuv: &mut [u32; 5]) -> (numerator: u32)
    requires
        !is_zero(old(xyzuv)@),
    ensures
        final(xyzuv)@ == open_state(old(xyzuv)@),
        numerator == final(xyzuv)@[4],
        0 < numerator < denominator(),
        !is_zero(final(xyzuv)@),
{
    loop
        invariant
            !is_zero(xyzuv@),
            open_state(xyzuv@) == open_state(old(xyzuv)@),
        decreases open_budget(xyzuv@),
    {
        proof {
            if is_endpoint(step(xyzuv@)[4]) {
                lemma_open_rejection(xyzuv@);
            }
        }
        let _ = xorshift160(xyzuv);
        if xyzuv[4] != 0_u32 && xyzuv[4] != u32::MAX {
            return xyzuv[4];
        }
    }
}

} // verus!

//! The Xorshift160 generator of Marsaglia (2003): five words of state, one
//! new 32-bit word per step, shift constants (7, 13, 6).

use vstd::prelude::*;

verus! {

/// The state that a generator seeded with `seed` starts from.
pub open spec fn initial_state(seed: u32) -> Seq<u32> {
    seq![123456789u32, 362436069u32, 521288629u32, 88675123u32, seed]
}

/// The word that one step produces from the first and the last word of the
/// state.
pub open spec fn scramble(head: u32, last: u32) -> u32 {
    let t = head ^ (head << 7u32);
    (last ^ (last >> 6u32)) ^ (t ^ (t >> 13u32))
}

/// The state after one step: the words move one place to the front and the
/// new word takes the last place.
pub open spec fn step(s: Seq<u32>) -> Seq<u32> {
    seq![s[1], s[2], s[3], s[4], scramble(s[0], s[4])]
}

/// The state after `n` steps.
pub open spec fn step_n(s: Seq<u32>, n: nat) -> Seq<u32>
    decreases n,
{
    if n == 0 {
        s
    } else {
        step_n(step(s), (n - 1) as nat)
    }
}

/// The first `n` words that a generator in state `s` produces.
pub open spec fn stream(s: Seq<u32>, n: nat) -> Seq<u32>
    decreases n,
{
    if n == 0 {
        Seq::empty()
    } else {
        seq![step(s)[4]] + stream(step(s), (n - 1) as nat)
    }
}

/// The degenerate state, which the generator never leaves.
pub open spec fn is_zero(s: Seq<u32>) -> bool {
    s[0] == 0 && s[1] == 0 && s[2] == 0 && s[3] == 0 && s[4] == 0
}

/// Creates the state of a generator from its seed.
pub fn generate_random_state(seed: u32) -> (state: [u32; 5])
    ensures
        state@ == initial_state(seed),
        !is_zero(state@),
{
    let state: [u32; 5] = [123456789, 362436069, 521288629, 88675123, seed];
    assert(state@ =~= initial_state(seed));
    state
}

/// Advances the generator by one step and returns the word produced, which
/// is also the new last word of the state.
pub fn xorshift160(xyzuv: &mut [u32; 5]) -> (r: u32)
    ensures
        final(xyzuv)@ == step(old(xyzuv)@),
        r == scramble(old(xyzuv)@[0], old(xyzuv)@[4]),
        is_zero(final(xyzuv)@) == is_zero(old(xyzuv)@),
{
    let t: u32 = xyzuv[0] ^ (xyzuv[0] << 7);
    xyzuv[0] = xyzuv[1];
    xyzuv[1] = xyzuv[2];
    xyzuv[2] = xyzuv[3];
    xyzuv[3] = xyzuv[4];
    let v: u32 = xyzuv[4];
    xyzuv[4] = (v ^ (v >> 6)) ^ (t ^ (t >> 13));
    proof {
        assert(xyzuv@ =~= step(old(xyzuv)@));
        lemma_step_keeps_zero_apart(old(xyzuv)@);
    }
    xyzuv[4]
}

/// With a last word of zero, a step produces zero from a zero first word
/// only.
pub proof fn lemma_scramble_zero(head: u32)
    ensures
        scramble(head, 0) == 0 <==> head == 0,
{
    assert(scramble(head, 0) == 0 <==> head == 0) by (bit_vector);
}

/// A step maps the zero state to itself and every other state to a state
/// that is not zero.
pub proof fn lemma_step_keeps_zero_apart(s: Seq<u32>)
    requires
        s.len() == 5,
    ensures
        is_zero(step(s)) == is_zero(s),
{
    lemma_scramble_zero(s[0]);
}

/// No seed gives the degenerate state.
pub proof fn lemma_initial_state_not_zero(seed: u32)
    ensures
        !is_zero(initial_state(seed)),
{
}

/// The first word of the state from which a step made the word `produced`
/// next to the last word `last`.
pub open spec fn unscramble(produced: u32, last: u32) -> u32 {
    let m = produced ^ (last ^ (last >> 6u32));
    let t = m ^ (m >> 13u32) ^ (m >> 26u32);
    t ^ (t << 7u32) ^ (t << 14u32) ^ (t << 21u32) ^ (t << 28u32)
}

/// The state of which `s` is the successor.
pub open spec fn step_back(s: Seq<u32>) -> Seq<u32> {
    seq![unscramble(s[4], s[3]), s[0], s[1], s[2], s[3]]
}

/// Mixing and its inverse undo each other.
pub proof fn lemma_unscramble(head: u32, produced: u32, last: u32)
    ensures
        unscramble(scramble(head, last), last) == head,
        scramble(unscramble(produced, last), last) == produced,
{
    assert(unscramble(scramble(head, last), last) == head) by (bit_vector);
    assert(scramble(unscramble(produced, last), last) == produced) by (bit_vector);
}

/// Every state has exactly one predecessor: a step forward and a step back
/// undo each other, so the states lie on cycles and no two streams ever
/// merge.
pub proof fn lemma_step_back(s: Seq<u32>)
    requires
        s.len() == 5,
    ensures
        step_back(step(s)) == s,
        step(step_back(s)) == s,
        is_zero(step_back(s)) == is_zero(s),
{
    lemma_unscramble(s[0], s[4], s[4]);
    lemma_unscramble(s[0], s[4], s[3]);
    assert(step_back(step(s)) =~= s);
    assert(step(step_back(s)) =~= s);
    lemma_step_keeps_zero_apart(step_back(s));
}

/// Two states with the same successor are the same state.
pub proof fn lemma_step_injective(a: Seq<u32>, b: Seq<u32>)
    requires
        a.len() == 5,
        b.len() == 5,
        step(a) == step(b),
    ensures
        a == b,
{
    lemma_step_back(a);
    lemma_step_back(b);
}

/// Generators created from the same seed produce the same words, however
/// many are drawn.
pub proof fn lemma_same_seed_same_stream(seed_a: u32, seed_b: u32, n: nat)
    requires
        seed_a == seed_b,
    ensures
        stream(initial_state(seed_a), n) == stream(initial_state(seed_b), n),
        step_n(initial_state(seed_a), n) == step_n(initial_state(seed_b), n),
{
}

/// States that differ still differ after any number of steps.
pub proof fn lemma_steps_keep_apart(a: Seq<u32>, b: Seq<u32>, n: nat)
    requires
        a.len() == 5,
        b.len() == 5,
        a != b,
    ensures
        step_n(a, n).len() == 5,
        step_n(b, n).len() == 5,
        step_n(a, n) != step_n(b, n),
    decreases n,
{
    if n > 0 {
        if step(a) == step(b) {
            lemma_step_injective(a, b);
        }
        lemma_steps_keep_apart(step(a), step(b), (n - 1) as nat);
    }
}

/// Generators created from different seeds are never in the same state
/// after the same number of draws.
pub proof fn lemma_different_seeds_never_meet(seed_a: u32, seed_b: u32, n: nat)
    requires
        seed_a != seed_b,
    ensures
        step_n(initial_state(seed_a), n) != step_n(initial_state(seed_b), n),
{
    assert(initial_state(seed_a)[4] != initial_state(seed_b)[4]);
    lemma_steps_keep_apart(initial_state(seed_a), initial_state(seed_b), n);
}

/// Drawing `n` words and then one more is drawing `n + 1` words.
pub proof fn lemma_stream_extend(s: Seq<u32>, n: nat)
    ensures
        stream(s, n + 1) == stream(s, n).push(step_n(s, n + 1)[4]),
        step_n(s, n + 1) == step(step_n(s, n)),
        stream(s, n).len() == n,
    decreases n,
{
    if n == 0 {
        assert(stream(step(s), 0) =~= Seq::<u32>::empty());
        assert(step_n(s, 1) == step_n(step(s), 0));
        assert(stream(s, 1) =~= stream(s, 0).push(step_n(s, 1)[4]));
    } else {
        lemma_stream_extend(step(s), (n - 1) as nat);
        assert(stream(s, n + 1) =~= stream(s, n).push(step_n(s, n + 1)[4]));
    }
}

} // verus!

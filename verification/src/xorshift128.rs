//! Xorshift128 written in several ways that must agree, and Xoshiro128++.
//!
//! Every way of writing Xorshift128 here has the same contract: the four
//! words move one place to the front, and the new last word is mixed from
//! the old first and the old last one.

use vstd::prelude::*;

verus! {

/// The first word, mixed with itself.
pub open spec fn spec_next_t(x: u32) -> u32 {
    x ^ (x << 11u32)
}

/// The new last word, from the mixed first word and the old last word.
pub open spec fn spec_next_w(t: u32, w: u32) -> u32 {
    (w ^ (w >> 19u32)) ^ (t ^ (t >> 8u32))
}

/// The word that a step of Xorshift128 produces from the first and the
/// last word of the state.
pub open spec fn next_word(x: u32, w: u32) -> u32 {
    spec_next_w(spec_next_t(x), w)
}

/// `core::mem::replace`: the value given is stored in place of the old one,
/// which is returned.
pub assume_specification<T>[ core::mem::replace::<T> ](dest: &mut T, src: T) -> (r: T)
    ensures
        *final(dest) == src,
        r == *old(dest),
;

/// Xorshift128, one assignment at a time.
pub fn next_u32_educational(x: &mut u32, y: &mut u32, z: &mut u32, w: &mut u32) -> (r: u32)
    ensures
        *final(x) == *old(y),
        *final(y) == *old(z),
        *final(z) == *old(w),
        *final(w) == next_word(*old(x), *old(w)),
        r == *final(w),
{
    let t: u32 = *x ^ (*x << 11);
    let x_new: u32 = *y;
    let y_new: u32 = *z;
    let z_new: u32 = *w;
    let w_new: u32 = (*w ^ (*w >> 19)) ^ (t ^ (t >> 8));

    *x = x_new;
    *y = y_new;
    *z = z_new;
    *w = w_new;

    *w
}

/// Xorshift128, the two mixings written as closures.
pub fn next_u32_closure(x: &mut u32, y: &mut u32, z: &mut u32, w: &mut u32) -> (r: u32)
    ensures
        *final(x) == *old(y),
        *final(y) == *old(z),
        *final(z) == *old(w),
        *final(w) == next_word(*old(x), *old(w)),
        r == *final(w),
{
    let calculate_t = |arg: u32| -> (out: u32)
        ensures
            out == spec_next_t(arg),
        { arg ^ (arg << 11) };
    let w_now: u32 = *w;
    let t: u32 = calculate_t(
        core::mem::replace(x, core::mem::replace(y, core::mem::replace(z, w_now))),
    );

    let calculate_w = |arg: u32| -> (out: u32)
        ensures
            out == spec_next_w(t, arg),
        { (arg ^ (arg >> 19)) ^ (t ^ (t >> 8)) };
    *w = calculate_w(w_now);
    *w
}

/// Xorshift128, the two closures called in one expression.
pub fn next_u32_closure_2(x: &mut u32, y: &mut u32, z: &mut u32, w: &mut u32) -> (r: u32)
    ensures
        *final(x) == *old(y),
        *final(y) == *old(z),
        *final(z) == *old(w),
        *final(w) == next_word(*old(x), *old(w)),
        r == *final(w),
{
    let calculate_t = |arg: u32| -> (out: u32)
        ensures
            out == spec_next_t(arg),
        { arg ^ (arg << 11) };
    let calculate_w = |arg_t: u32, arg_w: u32| -> (out: u32)
        ensures
            out == spec_next_w(arg_t, arg_w),
        { (arg_w ^ (arg_w >> 19)) ^ (arg_t ^ (arg_t >> 8)) };
    let w_now: u32 = *w;
    *w = calculate_w(
        calculate_t(core::mem::replace(x, core::mem::replace(y, core::mem::replace(z, w_now)))),
        w_now,
    );
    *w
}

/// The first word, mixed with itself.
#[inline]
pub fn next_t(x: u32) -> (t: u32)
    ensures
        t == spec_next_t(x),
{
    x ^ (x << 11)
}

/// The new last word, from the mixed first word and the old last word.
#[inline]
pub fn next_w(t: u32, w: u32) -> (r: u32)
    ensures
        r == spec_next_w(t, w),
{
    (w ^ (w >> 19)) ^ (t ^ (t >> 8))
}

/// Xorshift128, the two mixings as functions, called in one expression.
pub fn next_u32_inline(x: &mut u32, y: &mut u32, z: &mut u32, w: &mut u32) -> (r: u32)
    ensures
        *final(x) == *old(y),
        *final(y) == *old(z),
        *final(z) == *old(w),
        *final(w) == next_word(*old(x), *old(w)),
        r == *final(w),
{
    let w_now: u32 = *w;
    *w = next_w(
        next_t(core::mem::replace(x, core::mem::replace(y, core::mem::replace(z, w_now)))),
        w_now,
    );
    *w
}

/// Xorshift128, the two mixings as functions, called one after the other.
pub fn next_u32_inline_2(x: &mut u32, y: &mut u32, z: &mut u32, w: &mut u32) -> (r: u32)
    ensures
        *final(x) == *old(y),
        *final(y) == *old(z),
        *final(z) == *old(w),
        *final(w) == next_word(*old(x), *old(w)),
        r == *final(w),
{
    let w_now: u32 = *w;
    let t: u32 = next_t(core::mem::replace(x, core::mem::replace(y, core::mem::replace(z, w_now))));
    *w = next_w(t, w_now);
    *w
}

/// Xorshift128, the state updated in place.
pub fn next_u32_mut_educational(x: &mut u32, y: &mut u32, z: &mut u32, w: &mut u32) -> (r: u32)
    ensures
        *final(x) == *old(y),
        *final(y) == *old(z),
        *final(z) == *old(w),
        *final(w) == next_word(*old(x), *old(w)),
        r == *final(w),
{
    let t: u32 = *x ^ (*x << 11);
    *x = *y;
    *y = *z;
    *z = *w;
    *w = (*w ^ (*w >> 19)) ^ (t ^ (t >> 8));
    *w
}

/// Xorshift128 with the words moved by a chain of replacements. Unlike the
/// other forms, this one leaves out the mixing of the first word with
/// itself: the new last word is made from the first word as it was.
pub fn next_u32_mut_mem(x: &mut u32, y: &mut u32, z: &mut u32, w: &mut u32) -> (r: u32)
    ensures
        *final(x) == *old(y),
        *final(y) == *old(z),
        *final(z) == *old(w),
        *final(w) == spec_next_w(*old(x), *old(w)),
        r == *final(w),
{
    let w_now: u32 = *w;
    let t: u32 = core::mem::replace(x, core::mem::replace(y, core::mem::replace(z, w_now)));
    *w = (*w ^ (*w >> 19)) ^ (t ^ (t >> 8));
    *w
}

/// The word `x` with its bits moved `k` places to the left, those that
/// leave at the top coming back in at the bottom.
pub open spec fn rotated_left(x: u32, k: u32) -> u32 {
    if k % 32 == 0 {
        x
    } else {
        (x << (k % 32) as u32) | (x >> (32 - k % 32) as u32)
    }
}

/// Rotates `x` to the left by `k` places, for `k` up to 32.
pub fn rotl(x: u32, k: u32) -> (r: u32)
    requires
        k <= 32,
    ensures
        r == rotated_left(x, k),
{
    let left: u32 = x.wrapping_shl(k);
    let right: u32 = x.wrapping_shr(32u32 - k);
    assert((left | right) == rotated_left(x, k)) by {
        let kl: u32 = k % 32;
        let kr: u32 = ((32 - k) as u32) % 32;
        assert(left == x << kl);
        assert(right == x >> kr);
        if kl == 0 {
            assert(kr == 0);
            assert(((x << 0u32) | (x >> 0u32)) == x) by (bit_vector);
        } else {
            assert(kr == 32 - kl);
        }
    }
    left | right
}

/// The state of Xoshiro128++ after one step, as the four words in order.
pub open spec fn xoshiro_step(x: u32, y: u32, z: u32, w: u32) -> (u32, u32, u32, u32) {
    let z1 = z ^ x;
    let w1 = w ^ y;
    let y2 = y ^ z1;
    let x2 = x ^ w1;
    (x2, y2, z1 ^ (y << 9u32), rotated_left(w1, 11))
}

/// The word that Xoshiro128++ gives out in a state with first word `x` and
/// last word `w`.
pub open spec fn xoshiro_word(x: u32, w: u32) -> u32 {
    vstd::wrapping::u32_specs::wrapping_add(
        rotated_left(vstd::wrapping::u32_specs::wrapping_add(x, w), 7),
        x,
    )
}

/// Xoshiro128++: gives out a word made of the first and the last word of
/// the state, then moves the state on.
pub fn next_u32_xorshiro128plusplus(x: &mut u32, y: &mut u32, z: &mut u32, w: &mut u32) -> (result:
    u32)
    ensures
        result == xoshiro_word(*old(x), *old(w)),
        (*final(x), *final(y), *final(z), *final(w)) == xoshiro_step(
            *old(x),
            *old(y),
            *old(z),
            *old(w),
        ),
{
    let result: u32 = rotl((*x).wrapping_add(*w), 7u32).wrapping_add(*x);

    let t: u32 = (*y).wrapping_shl(9u32);
    *z ^= *x;
    *w ^= *y;
    *y ^= *z;
    *x ^= *w;

    *z ^= t;

    *w = rotl(*w, 11u32);

    result
}

} // verus!

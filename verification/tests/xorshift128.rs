use rand_simple::xorshift128::{
    next_t, next_u32_closure, next_u32_closure_2, next_u32_educational, next_u32_inline,
    next_u32_inline_2, next_u32_mut_educational, next_u32_mut_mem, next_u32_xorshiro128plusplus,
    next_w, rotl,
};
use std::time::SystemTime;

#[test]
fn check_same_results() {
    let mut x: u32 = 123456789u32;
    let mut y: u32 = 362436069u32;
    let mut z: u32 = 521288629u32;
    let mut w: u32 = 88675123u32;

    let mut x0: u32 = 123456789u32;
    let mut y0: u32 = 362436069u32;
    let mut z0: u32 = 521288629u32;
    let mut w0: u32 = 88675123u32;

    for _i in 0..100 {
        assert_eq!(
            next_u32_educational(&mut x, &mut y, &mut z, &mut w),
            next_u32_closure(&mut x0, &mut y0, &mut z0, &mut w0)
        );
    }

    let mut x0: u32 = 123456789u32;
    let mut y0: u32 = 362436069u32;
    let mut z0: u32 = 521288629u32;
    let mut w0: u32 = 88675123u32;

    let mut x1: u32 = 123456789u32;
    let mut y1: u32 = 362436069u32;
    let mut z1: u32 = 521288629u32;
    let mut w1: u32 = 88675123u32;

    for _i in 0..100 {
        assert_eq!(
            next_u32_closure(&mut x0, &mut y0, &mut z0, &mut w0),
            next_u32_inline(&mut x1, &mut y1, &mut z1, &mut w1)
        );
    }
}

#[test]
fn compare_time() {
    let mut _next: u32 = 0u32;
    const REPEAT: u128 = 10;

    let mut _span_educational: u128 = 0;
    {
        let mut x: u32 = 123456789u32;
        let mut y: u32 = 362436069u32;
        let mut z: u32 = 521288629u32;
        let mut w: u32 = 88675123u32;
        let initial = SystemTime::now();
        for _i in 0..REPEAT {
            _next = next_u32_educational(&mut x, &mut y, &mut z, &mut w);
        }
        let finish = SystemTime::now();
        _span_educational = finish
            .duration_since(initial)
            .expect("Time went backwards")
            .as_millis();
    }

    let mut _span_closure: u128 = 0;
    {
        let mut x: u32 = 123456789u32;
        let mut y: u32 = 362436069u32;
        let mut z: u32 = 521288629u32;
        let mut w: u32 = 88675123u32;
        let initial = SystemTime::now();
        for _i in 0..REPEAT {
            _next = next_u32_closure(&mut x, &mut y, &mut z, &mut w);
        }
        let finish = SystemTime::now();
        _span_closure = finish
            .duration_since(initial)
            .expect("Time went backwards")
            .as_millis();
    }

    let mut _span_closure_2: u128 = 0;
    {
        let mut x: u32 = 123456789u32;
        let mut y: u32 = 362436069u32;
        let mut z: u32 = 521288629u32;
        let mut w: u32 = 88675123u32;
        let initial = SystemTime::now();
        for _i in 0..REPEAT {
            _next = next_u32_closure_2(&mut x, &mut y, &mut z, &mut w);
        }
        let finish = SystemTime::now();
        _span_closure_2 = finish
            .duration_since(initial)
            .expect("Time went backwards")
            .as_millis();
    }

    let mut _span_inline: u128 = 0;
    {
        let mut x: u32 = 123456789u32;
        let mut y: u32 = 362436069u32;
        let mut z: u32 = 521288629u32;
        let mut w: u32 = 88675123u32;
        let initial = SystemTime::now();
        for _i in 0..REPEAT {
            _next = next_u32_inline(&mut x, &mut y, &mut z, &mut w);
        }
        let finish = SystemTime::now();
        _span_inline = finish
            .duration_since(initial)
            .expect("Time went backwards")
            .as_millis();
    }

    let mut _span_inline2: u128 = 0;
    {
        let mut x: u32 = 123456789u32;
        let mut y: u32 = 362436069u32;
        let mut z: u32 = 521288629u32;
        let mut w: u32 = 88675123u32;
        let initial = SystemTime::now();
        for _i in 0..REPEAT {
            _next = next_u32_inline_2(&mut x, &mut y, &mut z, &mut w);
        }
        let finish = SystemTime::now();
        _span_inline2 = finish
            .duration_since(initial)
            .expect("Time went backwards")
            .as_millis();
    }

    let mut _span_mut_educational: u128 = 0;
    {
        let mut x: u32 = 123456789u32;
        let mut y: u32 = 362436069u32;
        let mut z: u32 = 521288629u32;
        let mut w: u32 = 88675123u32;
        let initial = SystemTime::now();
        for _i in 0..REPEAT {
            _next = next_u32_mut_educational(&mut x, &mut y, &mut z, &mut w);
        }
        let finish = SystemTime::now();
        _span_mut_educational = finish
            .duration_since(initial)
            .expect("Time went backwards")
            .as_millis();
    }

    let mut _span_mut_mem: u128 = 0;
    {
        let mut x: u32 = 123456789u32;
        let mut y: u32 = 362436069u32;
        let mut z: u32 = 521288629u32;
        let mut w: u32 = 88675123u32;
        let initial = SystemTime::now();
        for _i in 0..REPEAT {
            _next = next_u32_mut_mem(&mut x, &mut y, &mut z, &mut w);
        }
        let finish = SystemTime::now();
        _span_mut_mem = finish
            .duration_since(initial)
            .expect("Time went backwards")
            .as_millis();
    }

    let mut _span_mut_xorshiro128_pp: u128 = 0;
    {
        let mut x: u32 = 123456789u32;
        let mut y: u32 = 362436069u32;
        let mut z: u32 = 521288629u32;
        let mut w: u32 = 88675123u32;
        let initial = SystemTime::now();
        for _i in 0..REPEAT {
            _next = next_u32_xorshiro128plusplus(&mut x, &mut y, &mut z, &mut w);
        }
        let finish = SystemTime::now();
        _span_mut_xorshiro128_pp = finish
            .duration_since(initial)
            .expect("Time went backwards")
            .as_millis();
    }

    assert_eq!(
        (
            _span_educational,
            _span_closure,
            _span_closure_2,
            _span_inline,
            _span_inline2,
            _span_mut_educational,
            _span_mut_mem,
            _span_mut_xorshiro128_pp
        ),
        (0, 0, 0, 0, 0, 0, 0, 0)
    );
}

fn plain_step(s: &mut [u32; 4]) -> u32 {
    let t = s[0] ^ (s[0] << 11);
    let w = (s[3] ^ (s[3] >> 19)) ^ (t ^ (t >> 8));
    *s = [s[1], s[2], s[3], w];
    w
}

#[test]
fn every_form_of_xorshift128_gives_the_known_words() {
    // The first words of Xorshift128 from Marsaglia's starting state.
    let expected: [u32; 4] = [3701687786, 458299110, 2500872618, 3633119408];
    let forms: [fn(&mut u32, &mut u32, &mut u32, &mut u32) -> u32; 6] = [
        next_u32_educational,
        next_u32_closure,
        next_u32_closure_2,
        next_u32_inline,
        next_u32_inline_2,
        next_u32_mut_educational,
    ];
    for form in forms {
        let (mut x, mut y, mut z, mut w) = (123456789u32, 362436069u32, 521288629u32, 88675123u32);
        let mut s = [x, y, z, w];
        for e in expected {
            let r = form(&mut x, &mut y, &mut z, &mut w);
            assert_eq!(r, e);
            assert_eq!(plain_step(&mut s), e);
            assert_eq!([x, y, z, w], s);
        }
    }
}

#[test]
fn next_t_and_next_w_mix_as_stated() {
    assert_eq!(next_t(1), 1 ^ (1 << 11));
    assert_eq!(next_t(0), 0);
    assert_eq!(next_t(u32::MAX), 0x0000_07FF);
    assert_eq!(next_w(0, 0), 0);
    assert_eq!(next_w(0, 0x8000_0000), 0x8000_0000 ^ (0x8000_0000 >> 19));
    assert_eq!(next_w(0x100, 0), 0x100 ^ 1);
    assert_eq!(next_w(next_t(123456789), 88675123), 3701687786);
}

#[test]
fn replacement_chain_form_uses_the_first_word_as_it_is() {
    let (mut x, mut y, mut z, mut w) = (123456789u32, 362436069u32, 521288629u32, 88675123u32);
    let r = next_u32_mut_mem(&mut x, &mut y, &mut z, &mut w);
    assert_eq!(r, next_w(123456789, 88675123));
    assert_eq!((x, y, z, w), (362436069, 521288629, 88675123, r));
    assert_ne!(r, 3701687786);
}

#[test]
fn rotl_moves_the_top_bits_to_the_bottom() {
    assert_eq!(rotl(0x8000_0001, 1), 0x0000_0003);
    assert_eq!(rotl(0x1234_5678, 8), 0x3456_7812);
    assert_eq!(rotl(0x1234_5678, 0), 0x1234_5678);
    assert_eq!(rotl(0x1234_5678, 32), 0x1234_5678);
    assert_eq!(rotl(0x1234_5678, 31), 0x091A_2B3C);
    for k in 0..=32_u32 {
        assert_eq!(rotl(0xDEAD_BEEF, k), 0xDEAD_BEEF_u32.rotate_left(k));
    }
}

#[test]
fn xoshiro128plusplus_step() {
    let (mut x, mut y, mut z, mut w) = (1u32, 2u32, 3u32, 4u32);
    let r = next_u32_xorshiro128plusplus(&mut x, &mut y, &mut z, &mut w);
    // rotl(1 + 4, 7) + 1
    assert_eq!(r, (5 << 7) + 1);
    // z1 = 3 ^ 1 = 2, w1 = 4 ^ 2 = 6, y = 2 ^ 2 = 0, x = 1 ^ 6 = 7,
    // z = 2 ^ (2 << 9) = 1026, w = rotl(6, 11) = 12288
    assert_eq!((x, y, z, w), (7, 0, 1026, 12288));
}

#[test]
fn xoshiro128plusplus_wraps_its_sums() {
    let (mut x, mut y, mut z, mut w) = (u32::MAX, 0u32, 0u32, 1u32);
    let r = next_u32_xorshiro128plusplus(&mut x, &mut y, &mut z, &mut w);
    // (MAX + 1) wraps to 0, rotl(0, 7) = 0, 0 + MAX = MAX
    assert_eq!(r, u32::MAX);
    assert_eq!((x, y, z, w), (u32::MAX ^ 1, u32::MAX, u32::MAX, 1 << 11));
}

use rand_simple::{
    generate_random_state, standard_normal_foot_pair, standard_normal_word, xorshift160_0_1_open,
    xorshift160_0_open_1_open,
};

const MAX_U32_AS_F64: f64 = u32::MAX as f64;
const B_NORMAL: f64 = 2.50662827463_f64;
const S_NORMAL: f64 = 0.88579134438_f64;
const W_NORMAL: f64 = 0.00003824869_f64;
const P_NORMAL: f64 = 0.94289567219_f64;
const Q_NORMAL: f64 = -0.12127385907_f64;
const D_NORMAL: f64 = core::f64::consts::TAU;

fn right_open(xyzuv: &mut [u32; 5]) -> f64 {
    f64::from(xorshift160_0_1_open(xyzuv)) / MAX_U32_AS_F64
}

fn open(xyzuv: &mut [u32; 5]) -> f64 {
    f64::from(xorshift160_0_open_1_open(xyzuv)) / MAX_U32_AS_F64
}

fn standard_normal(xyzuv0: &mut [u32; 5], xyzuv1: &mut [u32; 5]) -> f64 {
    let word = standard_normal_word(xyzuv0);
    let sign: f64 = if word.positive { 1_f64 } else { -1_f64 };
    let u_x: f64 = f64::from(word.magnitude) * W_NORMAL;
    if word.in_core() {
        sign * u_x
    } else {
        let u_dash: f64 = (f64::from(word.refinement) + 0.5_f64) / 65534_f64;
        if u_dash.ln() * 2_f64 < -u_x.powi(2_i32) {
            sign * u_x
        } else {
            let y: f64 = sign * S_NORMAL * (B_NORMAL - u_x);
            if (P_NORMAL - u_dash).ln() < Q_NORMAL - y.powi(2_i32) / 2_f64 {
                y
            } else {
                sign * standard_normal_foot(xyzuv0, xyzuv1)
            }
        }
    }
}

fn standard_normal_foot(xyzuv0: &mut [u32; 5], xyzuv1: &mut [u32; 5]) -> f64 {
    loop {
        let (n_1, n_2) = standard_normal_foot_pair(xyzuv0, xyzuv1);
        let u_1: f64 = f64::from(n_1) / MAX_U32_AS_F64;
        let u_2: f64 = f64::from(n_2) / MAX_U32_AS_F64;
        let x: f64 = (D_NORMAL - 2_f64 * (1_f64 - u_1).ln()).sqrt();
        if x * u_2 <= B_NORMAL {
            return x;
        }
    }
}

fn standard_exponential(xyzuv: &mut [u32; 5]) -> f64 {
    -(1_f64 - right_open(xyzuv)).ln()
}

fn standard_gamma(
    xyzuv_u: &mut [u32; 5],
    xyzuv_n_0: &mut [u32; 5],
    xyzuv_n_1: &mut [u32; 5],
    alpha: &f64,
) -> f64 {
    if *alpha == 1_f64 {
        return standard_exponential(xyzuv_u);
    } else if *alpha < 1_f64 {
        return standard_gamma(xyzuv_u, xyzuv_n_0, xyzuv_n_1, &(alpha + 1_f64))
            * open(xyzuv_u).powf(1_f64 / *alpha);
    }
    let d = *alpha - 1_f64 / 3_f64;
    let c = (9_f64 * d).powf(-0.5);
    loop {
        let z = standard_normal(xyzuv_n_0, xyzuv_n_1);
        let v = 1_f64 + c * z;
        if v > 0_f64 {
            let w = v.powi(3);
            let y = d * w;
            let u: f64 = open(xyzuv_u);
            if u <= 1_f64 - 0.0331 * z.powi(4) {
                return y;
            }
            if z.powi(2) / 2_f64 + d * (w.ln() + 1_f64) - y >= u.ln() {
                return y;
            }
        }
    }
}

fn mean_and_variance(samples: &[f64]) -> (f64, f64) {
    let n = samples.len() as f64;
    let mean = samples.iter().sum::<f64>() / n;
    let variance = samples.iter().map(|x| (x - mean).powi(2)).sum::<f64>() / (n - 1_f64);
    (mean, variance)
}

#[test]
fn normal_sample_in_the_core_is_the_scaled_position() {
    let mut xyzuv0 = generate_random_state(1192);
    let mut xyzuv1 = generate_random_state(765);
    let before = xyzuv1;
    let z = standard_normal(&mut xyzuv0, &mut xyzuv1);
    assert_eq!(z, 2914_f64 * 0.00003824869_f64);
    assert_eq!(xyzuv1, before);
}

#[test]
fn normal_samples_have_mean_zero_and_variance_one() {
    let mut xyzuv0 = generate_random_state(1192);
    let mut xyzuv1 = generate_random_state(765);
    let samples: Vec<f64> = (0..100_000)
        .map(|_| standard_normal(&mut xyzuv0, &mut xyzuv1))
        .collect();
    let (mean, variance) = mean_and_variance(&samples);
    assert!(mean.abs() < 0.02, "mean {mean}");
    assert!((variance - 1_f64).abs() < 0.03, "variance {variance}");
}

#[test]
fn exponential_and_gamma_of_shape_one_agree() {
    let mut e = generate_random_state(1192);
    let mut g_u = generate_random_state(1192);
    let mut g_n_0 = generate_random_state(765);
    let mut g_n_1 = generate_random_state(1543);
    for _ in 0..10_000 {
        let x = standard_exponential(&mut e);
        let y = standard_gamma(&mut g_u, &mut g_n_0, &mut g_n_1, &1_f64);
        assert_eq!(x.to_bits(), y.to_bits());
        assert_eq!(e, g_u);
    }
    assert_eq!(g_n_0, generate_random_state(765));
    assert_eq!(g_n_1, generate_random_state(1543));
}

#[test]
fn exponential_samples_are_finite_and_not_negative() {
    let mut xyzuv = generate_random_state(1192);
    for _ in 0..100_000 {
        let x = standard_exponential(&mut xyzuv);
        assert!(x.is_finite());
        assert!(x >= 0_f64);
    }
    // The largest numerator that the right-open form gives.
    let u = f64::from(u32::MAX - 1) / MAX_U32_AS_F64;
    assert!((-(1_f64 - u).ln()).is_finite());
}

#[test]
fn gamma_of_whole_shape_has_mean_and_variance_of_the_shape() {
    for k in 1..=5_u32 {
        let shape = f64::from(k);
        let mut xyzuv_u = generate_random_state(1192);
        let mut xyzuv_n_0 = generate_random_state(765);
        let mut xyzuv_n_1 = generate_random_state(1543);
        let samples: Vec<f64> = (0..100_000)
            .map(|_| standard_gamma(&mut xyzuv_u, &mut xyzuv_n_0, &mut xyzuv_n_1, &shape))
            .collect();
        let (mean, variance) = mean_and_variance(&samples);
        assert!(samples.iter().all(|x| *x >= 0_f64));
        assert!((mean - shape).abs() < 0.01 * shape, "shape {k}: mean {mean}");
        assert!(
            (variance - shape).abs() < 0.02 * shape,
            "shape {k}: variance {variance}"
        );
    }
}

#[test]
fn gamma_of_small_shape_is_boosted() {
    let shape = 0.5_f64;
    let mut xyzuv_u = generate_random_state(1192);
    let mut xyzuv_n_0 = generate_random_state(765);
    let mut xyzuv_n_1 = generate_random_state(1543);
    let samples: Vec<f64> = (0..100_000)
        .map(|_| standard_gamma(&mut xyzuv_u, &mut xyzuv_n_0, &mut xyzuv_n_1, &shape))
        .collect();
    let (mean, _) = mean_and_variance(&samples);
    assert!(samples.iter().all(|x| *x >= 0_f64 && x.is_finite()));
    assert!((mean - shape).abs() < 0.02 * shape, "mean {mean}");
}

#[test]
fn cauchy_samples_are_finite() {
    let mut xyzuv = generate_random_state(1192);
    for _ in 0..100_000 {
        let u = open(&mut xyzuv);
        let x = (core::f64::consts::PI * (u - 0.5_f64)).tan();
        assert!(x.is_finite());
    }
}

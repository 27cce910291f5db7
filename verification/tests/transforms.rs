use foc_core::carrier_freq_hz;
use foc_core::foc::{
    clarke_transform, code_to_volts_q16, inv_park_transform, park_transform, svpwm_gen,
    svpwm_sector,
};

const Q16: f64 = 65536.0;

#[test]
fn clarke_exact_values() {
    // i_alpha = i_a; i_beta = (i_a + 2 i_b) / sqrt(3), truncated.
    let (alpha, beta) = clarke_transform(65536, 0);
    assert_eq!(alpha, 65536);
    assert_eq!(beta, 37837);

    let (alpha, beta) = clarke_transform(0, 0);
    assert_eq!(alpha, 0);
    assert_eq!(beta, 0);

    let (alpha, beta) = clarke_transform(-65536, 65536);
    assert_eq!(alpha, -65536);
    // (-65536 + 131072) / sqrt(3)
    assert_eq!(beta, 37837);
}

#[test]
fn park_exact_values() {
    // cos at the greatest Q31 code, sin zero: d is alpha less one
    // truncation step, q is zero.
    let (d, q) = park_transform(65536, 0, 0, 0x7fff_ffff);
    assert_eq!(d, 65535);
    assert_eq!(q, 0);

    // sin one, cos zero: d = beta, q = -alpha (within truncation).
    let (d, q) = park_transform(65536, 32768, 0x7fff_ffff, 0);
    assert_eq!(d, 32767);
    assert_eq!(q, -65535);
}

#[test]
fn inv_park_matches_float_reference() {
    // sin and cos of 45 degrees in Q31: round(sqrt(1/2) * 2^31).
    let sin = 1_518_500_250i32;
    let cos = 1_518_500_250i32;
    let (alpha, beta) = inv_park_transform(65536, -32768, sin, cos);
    let s = 1_518_500_250f64 / 2147483648.0;
    let c = 1_518_500_250f64 / 2147483648.0;
    let alpha_ref = 1.0 * c - (-0.5) * s;
    let beta_ref = (-0.5) * c + 1.0 * s;
    assert!((alpha as f64 / Q16 - alpha_ref).abs() < 1e-4);
    assert!((beta as f64 / Q16 - beta_ref).abs() < 1e-4);
}

#[test]
fn end_to_end_current_pipeline() {
    // Period of 8500 ticks at a 170 MHz timer clock: 10 kHz carrier.
    assert_eq!(carrier_freq_hz(170_000_000, 8500), 10_000);

    // Raw injected codes against a 12-bit full scale and a 3.3 V
    // reference, rotor angle a quarter turn.
    let ia = code_to_volts_q16(2100, 4095, 3_300_000);
    let ib = code_to_volts_q16(1950, 4095, 3_300_000);
    assert_eq!(ia, 110907);
    assert_eq!(ib, 102985);

    let (alpha, beta) = clarke_transform(ia, ib);

    // A quarter turn: sine one, cosine zero, as the accelerator
    // delivers them in Q31.
    let sin_q31 = 0x7fff_ffffi32;
    let cos_q31 = 0i32;
    let (i_d, i_q) = park_transform(alpha, beta, sin_q31, cos_q31);

    // Reference floating-point computation.
    let ia_f = 2100.0 / 4095.0 * 3.3;
    let ib_f = 1950.0 / 4095.0 * 3.3;
    let alpha_f = ia_f;
    let beta_f = (ia_f + 2.0 * ib_f) / 3.0f64.sqrt();
    let theta = 0.25 * 2.0 * std::f64::consts::PI;
    let id_f = alpha_f * theta.cos() + beta_f * theta.sin();
    let iq_f = beta_f * theta.cos() - alpha_f * theta.sin();

    assert!((i_d as f64 / Q16 - id_f).abs() < 1e-4);
    assert!((i_q as f64 / Q16 - iq_f).abs() < 1e-4);
}

#[test]
fn svpwm_zero_vector_centres_all_phases() {
    let (a, b, c) = svpwm_gen(0, 0, 8500);
    assert_eq!((a, b, c), (4250, 4250, 4250));
}

#[test]
fn svpwm_exact_duties() {
    let (a, b, c) = svpwm_gen(20000, 30000, 8500);
    assert_eq!((a, b, c), (7880, 7358, 619));
}

#[test]
fn svpwm_clamps_overmodulation() {
    // A full-scale alpha vector saturates one leg high and two legs
    // low; every duty stays within [0, max_pwm].
    let (a, b, c) = svpwm_gen(65536, 0, 8500);
    assert_eq!(a, 8500);
    assert_eq!(b, 0);
    assert_eq!(c, 0);

    for &(va, vb) in &[
        (1_048_576i32, 1_048_576i32),
        (-1_048_576, 1_048_576),
        (1_048_576, -1_048_576),
        (-1_048_576, -1_048_576),
        (0, 1_048_576),
        (1_048_576, 0),
    ] {
        let (a, b, c) = svpwm_gen(va, vb, 8500);
        assert!(a <= 8500 && b <= 8500 && c <= 8500);
    }
}

#[test]
fn svpwm_duty_clamp_sweep() {
    // Duty fractions over the whole input domain stay in [0, max_pwm]
    // for several periods.
    for max_pwm in [1u32, 2, 8500, 65535, 65536] {
        let mut v = -1_048_576i32;
        while v <= 1_048_576 {
            let (a, b, c) = svpwm_gen(v, -v / 2, max_pwm);
            assert!(a <= max_pwm && b <= max_pwm && c <= max_pwm);
            v += 65536;
        }
    }
}

#[test]
fn svpwm_sector_covers_all_six() {
    // A half-amplitude vector rotated in 60 degree steps visits each of
    // the six sectors exactly once.
    let points = [
        (32768i32, 0i32),
        (16384, 28377),
        (-16384, 28377),
        (-32768, 0),
        (-16384, -28377),
        (16384, -28377),
    ];
    let mut seen = [false; 7];
    for &(va, vb) in &points {
        let s = svpwm_sector(va, vb);
        assert!((1..=6).contains(&s), "sector {} out of range", s);
        assert!(!seen[s as usize], "sector {} repeated", s);
        seen[s as usize] = true;
    }
}

#[test]
fn svpwm_sector_degenerate_is_zero() {
    assert_eq!(svpwm_sector(0, 0), 0);
}

//! Stateless rotor-frame transform library: Clarke, Park, inverse Park
//! and space-vector PWM.
//!
//! Signals are carried as Q16.16 fixed point (65536 is 1.0); the sine and
//! cosine factors come from the CORDIC engine as Q31 codes. All
//! arithmetic is exact integer arithmetic with truncation toward zero, so
//! every result is pinned down by its contract.

use vstd::prelude::*;
use vstd::arithmetic::div_mod::{lemma_div_is_ordered, lemma_multiply_divide_le};
use vstd::arithmetic::mul::lemma_mul_inequality;

verus! {

/// `1 / sqrt(3)` in Q31: `round(2^31 / sqrt(3))`.
pub const Q31_INV_SQRT3: i32 = 1_239_850_262;

/// `sqrt(3) / 2` in Q31: `round(sqrt(3) / 2 * 2^31)`.
pub const Q31_SQRT3_OVER_2: i32 = 1_859_775_393;

/// `1 / 2` in Q31.
pub const Q31_HALF: i32 = 0x4000_0000;

/// Largest signal magnitude the transforms accept, in Q16.16: 16.0.
pub const SIGNAL_LIMIT: i32 = 1_048_576;

/// Division by `2^31` truncating toward zero, as the fixed-point scaling
/// hardware-style arithmetic performs it.
pub open spec fn spec_tdiv_q31(p: int) -> int {
    if p >= 0 {
        p / 0x8000_0000
    } else {
        -((-p) / 0x8000_0000)
    }
}

/// A signal scaled by a Q31 coefficient: `v * c / 2^31`, truncating
/// toward zero.
pub open spec fn spec_q31_scale(v: int, c: int) -> int {
    spec_tdiv_q31(v * c)
}

/// Scale a signal by a Q31 coefficient. The result never exceeds the
/// signal's magnitude, since every Q31 coefficient is at most one.
pub fn q31_scale(v: i32, c: i32) -> (scaled: i32)
    requires
        -0x4000_0000 <= v <= 0x4000_0000,
    ensures
        scaled == spec_q31_scale(v as int, c as int),
        -0x4000_0000 <= scaled <= 0x4000_0000,
        (if v >= 0 {
            -(v as int) <= scaled <= v as int
        } else {
            v as int <= scaled <= -(v as int)
        }),
{
    let negative: bool = (v < 0) != (c < 0);
    let mv: u64 = if v >= 0 {
        v as u64
    } else {
        (-(v as i64)) as u64
    };
    let mc: u64 = if c >= 0 {
        c as u64
    } else {
        (-(c as i64)) as u64
    };
    proof {
        assert(mv * mc <= 0x4000_0000 * 0x8000_0000) by (nonlinear_arith)
            requires
                mv <= 0x4000_0000,
                mc <= 0x8000_0000,
        ;
    }
    let p: u64 = mv * mc;
    let q: u64 = p / 0x8000_0000;
    proof {
        lemma_div_is_ordered(p as int, 0x4000_0000int * 0x8000_0000, 0x8000_0000);
        assert((v as int) * (c as int) == if negative {
            -(mv as int * mc as int)
        } else {
            mv as int * mc as int
        }) by (nonlinear_arith)
            requires
                mv == (if v >= 0 {
                    v as int
                } else {
                    -(v as int)
                }),
                mc == (if c >= 0 {
                    c as int
                } else {
                    -(c as int)
                }),
                negative == ((v < 0) != (c < 0)),
        ;
        assert(p <= 0x8000_0000 * mv) by (nonlinear_arith)
            requires
                p == mv * mc,
                mc <= 0x8000_0000,
        ;
        lemma_multiply_divide_le(p as int, 0x8000_0000, mv as int);
    }
    if negative {
        -(q as i32)
    } else {
        q as i32
    }
}

/// Clarke transform: two measured phase currents to the two-axis
/// stationary frame. `i_alpha = i_a`; `i_beta = (i_a + 2 i_b) / sqrt(3)`.
pub fn clarke_transform(current_a: i32, current_b: i32) -> (alpha_beta: (i32, i32))
    requires
        -SIGNAL_LIMIT <= current_a <= SIGNAL_LIMIT,
        -SIGNAL_LIMIT <= current_b <= SIGNAL_LIMIT,
    ensures
        alpha_beta.0 == current_a,
        alpha_beta.1 == spec_q31_scale(current_a + 2 * current_b, Q31_INV_SQRT3 as int),
        -0x4000_0000 <= alpha_beta.1 <= 0x4000_0000,
{
    let s: i32 = current_a + 2 * current_b;
    let beta = q31_scale(s, Q31_INV_SQRT3);
    (current_a, beta)
}

/// Park transform: the stationary frame rotated into the rotor frame by
/// the angle whose sine and cosine are given as Q31 codes.
/// `i_d = i_alpha cos + i_beta sin`; `i_q = i_beta cos - i_alpha sin`.
pub fn park_transform(current_alpha: i32, current_beta: i32, sin_q31: i32, cos_q31: i32) -> (dq: (
    i32,
    i32,
))
    requires
        -0x2000_0000 <= current_alpha <= 0x2000_0000,
        -0x2000_0000 <= current_beta <= 0x2000_0000,
    ensures
        dq.0 == spec_q31_scale(current_alpha as int, cos_q31 as int) + spec_q31_scale(
            current_beta as int,
            sin_q31 as int,
        ),
        dq.1 == spec_q31_scale(current_beta as int, cos_q31 as int) - spec_q31_scale(
            current_alpha as int,
            sin_q31 as int,
        ),
{
    let ac = q31_scale(current_alpha, cos_q31);
    let bs = q31_scale(current_beta, sin_q31);
    let bc = q31_scale(current_beta, cos_q31);
    let as_ = q31_scale(current_alpha, sin_q31);
    (ac + bs, bc - as_)
}

/// Inverse Park transform: a rotor-frame voltage demand rotated back to
/// the stationary frame.
/// `v_alpha = v_d cos - v_q sin`; `v_beta = v_q cos + v_d sin`.
pub fn inv_park_transform(volt_d: i32, volt_q: i32, sin_q31: i32, cos_q31: i32) -> (alpha_beta: (
    i32,
    i32,
))
    requires
        -0x2000_0000 <= volt_d <= 0x2000_0000,
        -0x2000_0000 <= volt_q <= 0x2000_0000,
    ensures
        alpha_beta.0 == spec_q31_scale(volt_d as int, cos_q31 as int) - spec_q31_scale(
            volt_q as int,
            sin_q31 as int,
        ),
        alpha_beta.1 == spec_q31_scale(volt_q as int, cos_q31 as int) + spec_q31_scale(
            volt_d as int,
            sin_q31 as int,
        ),
{
    let dc = q31_scale(volt_d, cos_q31);
    let qs = q31_scale(volt_q, sin_q31);
    let qc = q31_scale(volt_q, cos_q31);
    let ds = q31_scale(volt_d, sin_q31);
    (dc - qs, qc + ds)
}

/// The three inverse-Clarke phase projections of a stationary-frame
/// voltage: `v_a = v_alpha`, `v_b = -v_alpha/2 + sqrt(3)/2 v_beta`,
/// `v_c = -v_alpha/2 - sqrt(3)/2 v_beta`.
pub open spec fn spec_phase_projections(v_alpha: int, v_beta: int) -> (int, int, int) {
    let half_a = spec_q31_scale(v_alpha, Q31_HALF as int);
    let s3b = spec_q31_scale(v_beta, Q31_SQRT3_OVER_2 as int);
    (v_alpha, s3b - half_a, -s3b - half_a)
}

/// Which of the six space-vector sectors the voltage vector points into,
/// read off the signs of the three phase projections; 0 when the vector
/// is degenerate (at the origin or with all projections of one sign).
pub open spec fn spec_svpwm_sector(va: int, vb: int, vc: int) -> u8 {
    let index = (if va > 0 {
        1int
    } else {
        0int
    }) + (if vb > 0 {
        2int
    } else {
        0int
    }) + (if vc > 0 {
        4int
    } else {
        0int
    });
    if index == 1 {
        2
    } else if index == 2 {
        6
    } else if index == 3 {
        1
    } else if index == 4 {
        4
    } else if index == 5 {
        3
    } else if index == 6 {
        5
    } else {
        0
    }
}

/// Identify the space-vector sector of a stationary-frame voltage.
pub fn svpwm_sector(v_alpha: i32, v_beta: i32) -> (sector: u8)
    requires
        -SIGNAL_LIMIT <= v_alpha <= SIGNAL_LIMIT,
        -SIGNAL_LIMIT <= v_beta <= SIGNAL_LIMIT,
    ensures
        ({
            let (va, vb, vc) = spec_phase_projections(v_alpha as int, v_beta as int);
            sector == spec_svpwm_sector(va, vb, vc)
        }),
{
    let half_a = q31_scale(v_alpha, Q31_HALF);
    let s3b = q31_scale(v_beta, Q31_SQRT3_OVER_2);
    let va = v_alpha;
    let vb = s3b - half_a;
    let vc = -s3b - half_a;
    let index: u8 = (if va > 0 {
        1u8
    } else {
        0u8
    }) + (if vb > 0 {
        2u8
    } else {
        0u8
    }) + (if vc > 0 {
        4u8
    } else {
        0u8
    });
    if index == 1 {
        2
    } else if index == 2 {
        6
    } else if index == 3 {
        1
    } else if index == 4 {
        4
    } else if index == 5 {
        3
    } else if index == 6 {
        5
    } else {
        0
    }
}

/// Half of a value, truncating toward zero.
pub open spec fn spec_half_toward_zero(v: int) -> int {
    if v >= 0 {
        v / 2
    } else {
        -((-v) / 2)
    }
}

/// The common-mode midpoint of three phase projections: half the sum of
/// their maximum and minimum.
pub open spec fn spec_midpoint(va: int, vb: int, vc: int) -> int {
    let hi = if va >= vb && va >= vc {
        va
    } else if vb >= vc {
        vb
    } else {
        vc
    };
    let lo = if va <= vb && va <= vc {
        va
    } else if vb <= vc {
        vb
    } else {
        vc
    };
    spec_half_toward_zero(hi + lo)
}

/// One phase projection turned into a duty fraction: centre the
/// projection on the common-mode midpoint, place zero at half duty,
/// clamp to `[0, 1]` in Q16.16, and scale to `[0, max_pwm]`.
pub open spec fn spec_svpwm_duty(v: int, mid: int, max_pwm: int) -> int {
    let centred = 32768 + v - mid;
    let clamped = if centred < 0 {
        0
    } else if centred > 65536 {
        65536
    } else {
        centred
    };
    clamped * max_pwm / 65536
}

/// Centre, clamp and scale one phase projection.
fn svpwm_duty(v: i32, mid: i32, max_pwm: u32) -> (duty: u32)
    requires
        -0x4000_0000 <= v <= 0x4000_0000,
        -0x4000_0000 <= mid <= 0x4000_0000,
    ensures
        duty == spec_svpwm_duty(v as int, mid as int, max_pwm as int),
        duty <= max_pwm,
{
    let centred: i64 = 32768i64 + v as i64 - mid as i64;
    let clamped: u64 = if centred < 0 {
        0
    } else if centred > 65536 {
        65536
    } else {
        centred as u64
    };
    proof {
        lemma_mul_inequality(clamped as int, 65536, max_pwm as int);
        lemma_multiply_divide_le(clamped as int * max_pwm as int, 65536, max_pwm as int);
        assert(clamped as int * max_pwm as int <= 65536 * 0xffff_ffff) by (nonlinear_arith)
            requires
                clamped <= 65536,
                max_pwm <= 0xffff_ffff,
        ;
    }
    ((clamped * max_pwm as u64) / 65536) as u32
}

/// Space-vector PWM: map a stationary-frame voltage demand, normalised so
/// that 1.0 in Q16.16 is the full bus voltage, to three duty fractions in
/// `[0, max_pwm]`. The common mode is centred with the min/max midpoint
/// — the injection equivalent of the per-sector switching-time formulas —
/// and each duty is clamped into range.
pub fn svpwm_gen(v_alpha: i32, v_beta: i32, max_pwm: u32) -> (duties: (u32, u32, u32))
    requires
        -SIGNAL_LIMIT <= v_alpha <= SIGNAL_LIMIT,
        -SIGNAL_LIMIT <= v_beta <= SIGNAL_LIMIT,
    ensures
        ({
            let (va, vb, vc) = spec_phase_projections(v_alpha as int, v_beta as int);
            let mid = spec_midpoint(va, vb, vc);
            &&& duties.0 == spec_svpwm_duty(va, mid, max_pwm as int)
            &&& duties.1 == spec_svpwm_duty(vb, mid, max_pwm as int)
            &&& duties.2 == spec_svpwm_duty(vc, mid, max_pwm as int)
        }),
        duties.0 <= max_pwm,
        duties.1 <= max_pwm,
        duties.2 <= max_pwm,
{
    let half_a = q31_scale(v_alpha, Q31_HALF);
    let s3b = q31_scale(v_beta, Q31_SQRT3_OVER_2);
    let va = v_alpha;
    let vb = s3b - half_a;
    let vc = -s3b - half_a;

    let hi = if va >= vb && va >= vc {
        va
    } else if vb >= vc {
        vb
    } else {
        vc
    };
    let lo = if va <= vb && va <= vc {
        va
    } else if vb <= vc {
        vb
    } else {
        vc
    };
    let sum: i32 = hi + lo;
    let mid: i32 = if sum >= 0 {
        ((sum as u32) / 2) as i32
    } else {
        -((((-(sum as i64)) as u32) / 2) as i32)
    };

    let duty_a = svpwm_duty(va, mid, max_pwm);
    let duty_b = svpwm_duty(vb, mid, max_pwm);
    let duty_c = svpwm_duty(vc, mid, max_pwm);
    (duty_a, duty_b, duty_c)
}

/// A raw converter code turned into Q16.16 volts: `code / fullscale`
/// of `vref_uv` microvolts.
pub fn code_to_volts_q16(code: u16, fullscale: u16, vref_uv: u32) -> (volts_q16: i32)
    requires
        fullscale > 0,
        code <= fullscale,
        vref_uv <= 10_000_000,
    ensures
        volts_q16 == code as int * vref_uv as int * 65536 / (fullscale as int * 1_000_000),
        0 <= volts_q16 <= 655360,
{
    proof {
        assert(code as int * vref_uv as int <= 655_350_000_000) by (nonlinear_arith)
            requires
                code <= 65535,
                vref_uv <= 10_000_000,
        ;
    }
    let num: u64 = code as u64 * vref_uv as u64 * 65536;
    let den: u64 = fullscale as u64 * 1_000_000;
    proof {
        assert(num <= den * 655360) by (nonlinear_arith)
            requires
                num == code as int * vref_uv as int * 65536,
                den == fullscale as int * 1_000_000,
                code <= fullscale,
                vref_uv <= 10_000_000,
                fullscale > 0,
        ;
        lemma_multiply_divide_le(num as int, den as int, 655360);
    }
    (num / den) as i32
}

} // verus!

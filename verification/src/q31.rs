//! Q31 fixed-point representation used by the trigonometric accelerator.
//!
//! A Q31 code is a signed 32-bit integer `c` standing for the value
//! `c / 2^31` in `[-1, 1)`. The accelerator's native angle unit spans one
//! full turn over that range. Encoding maps an exact rational `num / den`
//! to `round(num / den * 2^31)` with ties rounded away from zero, exactly
//! as the firmware's floating-point conversion does; a value so close to
//! one that it would round to `2^31` saturates to the greatest code.

use vstd::prelude::*;
use vstd::arithmetic::div_mod::{
    lemma_basic_div, lemma_div_denominator, lemma_div_is_ordered, lemma_div_multiples_vanish,
    lemma_div_multiples_vanish_fancy, lemma_fundamental_div_mod, lemma_multiply_divide_le,
    lemma_multiply_divide_lt,
};
use vstd::arithmetic::mul::lemma_mul_inequality;

verus! {

/// One in Q31: the scale factor `2^31`.
pub const Q31_SCALE: u64 = 0x8000_0000;

/// The greatest Q31 code: one minus one step.
pub const Q31_MAX: i32 = 0x7fff_ffff;

/// Round `num / den` to the nearest integer, ties away from zero.
pub open spec fn spec_round_half_away(num: int, den: int) -> int
    recommends
        den > 0,
{
    if num >= 0 {
        (2 * num + den) / (2 * den)
    } else {
        -((2 * (-num) + den) / (2 * den))
    }
}

/// The Q31 code of the exact rational `num / den` in `[-1, 1)`:
/// `round(num / den * 2^31)`, ties away from zero, saturating at the
/// greatest code.
pub open spec fn spec_q31_encode(num: int, den: int) -> int
    recommends
        den > 0,
        -den <= num < den,
{
    let rounded = spec_round_half_away(num * 0x8000_0000, den);
    if rounded > 0x7fff_ffff {
        0x7fff_ffff
    } else {
        rounded
    }
}

/// Magnitude part of the encoding: `round(mag / den * 2^31)` for a
/// non-negative numerator, computed in 64-bit arithmetic.
fn q31_encode_magnitude(mag: u64, den: u64) -> (code: u64)
    requires
        0 < den <= 0x1_0000_0000,
        mag < den,
    ensures
        code == spec_round_half_away(mag * 0x8000_0000, den as int),
        code <= 0x8000_0000,
{
    let scaled: u64 = mag * Q31_SCALE;
    proof {
        lemma_mul_inequality(mag as int, (den - 1) as int, 0x8000_0000);
        assert((den - 1) * 0x8000_0000 <= (0x1_0000_0000 - 1) * 0x8000_0000) by (nonlinear_arith)
            requires
                den <= 0x1_0000_0000,
        ;
    }
    if den % 2 == 0 {
        let half: u64 = den / 2;
        proof {
            // scaled + half <= den * 2^31, so the quotient is at most 2^31.
            assert(scaled + half <= den * 0x8000_0000) by (nonlinear_arith)
                requires
                    scaled == mag * 0x8000_0000,
                    mag < den,
                    half <= 0x8000_0000,
                    0 < den,
            ;
            lemma_multiply_divide_le((scaled + half) as int, den as int, 0x8000_0000);
            // (s + d/2) / d equals (2s + d) / (2d) when d is even.
            let s = scaled as int;
            let d = den as int;
            let e = half as int;
            assert(2 * s + d == 2 * (s + e));
            assert(2 * d == 2 * (2 * e));
            lemma_div_denominator(2 * (s + e), 2, 2 * e);
            lemma_div_multiples_vanish(s + e, 2);
            assert((2 * (s + e)) / 2 == s + e);
            assert((2 * s + d) / (2 * d) == (s + e) / (2 * e));
        }
        (scaled + half) / den
    } else {
        proof {
            // 2 * scaled + den < 2 * den * 2^31: the quotient stays below 2^31.
            assert(2 * scaled + den < (2 * den) * 0x8000_0000) by (nonlinear_arith)
                requires
                    scaled == mag * 0x8000_0000,
                    mag < den,
                    0 < den < 0x1_0000_0000,
            ;
            lemma_multiply_divide_lt((2 * scaled + den) as int, 2 * den as int, 0x8000_0000);
        }
        (2 * scaled + den) / (2 * den)
    }
}

/// Encode the exact rational `num / den`, a value in `[-1, 1)`, as a Q31
/// code: `round(num / den * 2^31)` with ties rounded away from zero,
/// saturating at the greatest code.
pub fn q31_from_fraction(num: i64, den: i64) -> (code: i32)
    requires
        0 < den <= 0x1_0000_0000,
        -den <= num < den,
    ensures
        code == spec_q31_encode(num as int, den as int),
{
    if num == -den {
        // Exactly -1: the least Q31 code.
        proof {
            lemma_div_multiples_vanish_fancy(0x8000_0000, den as int, 2 * den as int);
        }
        i32::MIN
    } else if num >= 0 {
        let q = q31_encode_magnitude(num as u64, den as u64);
        if q > 0x7fff_ffff {
            Q31_MAX
        } else {
            q as i32
        }
    } else {
        let q = q31_encode_magnitude((-num) as u64, den as u64);
        (-(q as i64)) as i32
    }
}

/// Fixed-point round trip: the encoded code differs from the exact value
/// by at most half of one Q31 step, or by at most a full step where the
/// value is so close to one that the code saturates. Written over the
/// common denominator and doubled to stay in integers:
/// `-2 den < 2 (code den - num 2^31) <= den`. Decoding `code / 2^31`
/// therefore recovers `num / den` within one quantization step of
/// `2^-31`.
pub proof fn lemma_q31_round_trip(num: int, den: int)
    requires
        0 < den <= 0x1_0000_0000,
        -den <= num < den,
    ensures
        -2 * den < 2 * (spec_q31_encode(num, den) * den - num * 0x8000_0000) <= den,
{
    let s = num * 0x8000_0000;
    if num >= 0 {
        let a = 2 * s + den;
        let q = a / (2 * den);
        let r = a % (2 * den);
        lemma_fundamental_div_mod(a, 2 * den);
        lemma_mod_range(a, 2 * den);
        assert((2 * den) * q == 2 * (q * den)) by (nonlinear_arith);
        assert(0 <= s) by (nonlinear_arith)
            requires
                num >= 0,
                s == num * 0x8000_0000,
        ;
        assert(2 * (q * den) == a - r);
        assert(2 * (q * den - s) == den - r);
        if q > 0x7fff_ffff {
            // Saturated: the value lies within half a step below 2^31,
            // and the greatest code lies within a step below the value.
            assert(s <= (den - 1) * 0x8000_0000) by (nonlinear_arith)
                requires
                    num <= den - 1,
                    s == num * 0x8000_0000,
            ;
            assert(q <= 0x8000_0000) by {
                assert(a <= (2 * den) * 0x8000_0000) by (nonlinear_arith)
                    requires
                        s <= (den - 1) * 0x8000_0000,
                        a == 2 * s + den,
                        0 < den <= 0x1_0000_0000,
                ;
                lemma_multiply_divide_le(a, 2 * den, 0x8000_0000);
            }
            assert(q == 0x8000_0000);
            assert(spec_q31_encode(num, den) == 0x7fff_ffff);
            assert(2 * (0x7fff_ffff * den - s) == den - r - 2 * den) by (nonlinear_arith)
                requires
                    2 * (q * den - s) == den - r,
                    q == 0x8000_0000,
        ;
        } else {
            assert(spec_q31_encode(num, den) == q);
        }
    } else {
        let m = -num;
        let a = 2 * (m * 0x8000_0000) + den;
        let q = a / (2 * den);
        let r = a % (2 * den);
        lemma_fundamental_div_mod(a, 2 * den);
        lemma_mod_range(a, 2 * den);
        assert((2 * den) * q == 2 * (q * den)) by (nonlinear_arith);
        assert(m * 0x8000_0000 == -s) by (nonlinear_arith)
            requires
                m == -num,
                s == num * 0x8000_0000,
        ;
        assert(spec_q31_encode(num, den) == -q);
        assert(2 * (q * den) == a - r);
        assert(2 * ((-q) * den - s) == r - den) by (nonlinear_arith)
            requires
                2 * (q * den) == a - r,
                a == 2 * (-s) + den,
        ;
    }
}

/// Zero encodes to zero.
pub proof fn lemma_q31_encode_zero(den: int)
    requires
        0 < den <= 0x1_0000_0000,
    ensures
        spec_q31_encode(0, den) == 0,
{
    lemma_basic_div(den, 2 * den);
}

/// Ties round away from zero: when `num / den * 2^31` lies exactly half
/// way between two codes, the code farther from zero is chosen.
pub proof fn lemma_q31_ties_away(num: int, den: int)
    requires
        0 < den <= 0x1_0000_0000,
        0 <= num < den,
        den % 2 == 0,
        (num * 0x8000_0000) % den == den / 2,
    ensures
        spec_round_half_away(num * 0x8000_0000, den) == (num * 0x8000_0000) / den + 1,
{
    let s = num * 0x8000_0000;
    let q = s / den;
    lemma_fundamental_div_mod(s, den);
    assert(s == den * q + den / 2);
    assert(2 * s + den == (2 * den) * (q + 1)) by (nonlinear_arith)
        requires
            s == den * q + den / 2,
            den % 2 == 0,
    ;
    lemma_div_multiples_vanish_fancy(q + 1, 0, 2 * den);
    assert((2 * den) * (q + 1) == (2 * den) * (q + 1) + 0);
    assert(0 <= s) by (nonlinear_arith)
        requires
            num >= 0,
            s == num * 0x8000_0000,
    ;
    lemma_div_is_ordered(0, s, den);
}

/// The remainder of a division by a positive divisor lies in `[0, d)`.
proof fn lemma_mod_range(a: int, d: int)
    requires
        0 < d,
    ensures
        0 <= a % d < d,
{
}

} // verus!

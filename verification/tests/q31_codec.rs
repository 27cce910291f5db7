use foc_core::q31::q31_from_fraction;

const LSB: f64 = 1.0 / 2147483648.0;

fn decode(code: i32) -> f64 {
    code as f64 / 2147483648.0
}

#[test]
fn q31_zero_encodes_to_zero() {
    assert_eq!(q31_from_fraction(0, 1), 0);
    assert_eq!(q31_from_fraction(0, 4096), 0);
    assert_eq!(q31_from_fraction(0, 0x1_0000_0000), 0);
}

#[test]
fn q31_exact_quarters() {
    assert_eq!(q31_from_fraction(1, 4), 0x2000_0000);
    assert_eq!(q31_from_fraction(-1, 4), -0x2000_0000);
    assert_eq!(q31_from_fraction(1, 2), 0x4000_0000);
    assert_eq!(q31_from_fraction(-1, 2), -0x4000_0000);
    assert_eq!(q31_from_fraction(-1, 1), i32::MIN);
    assert_eq!(q31_from_fraction(-0x1_0000_0000, 0x1_0000_0000), i32::MIN);
}

#[test]
fn q31_round_trip_dense() {
    // Dense sweep over [-1, 1): the decoded code recovers the value
    // within one quantization step.
    let den: i64 = 100_000;
    let mut num: i64 = -den;
    while num < den {
        let code = q31_from_fraction(num, den);
        let exact = num as f64 / den as f64;
        let recovered = decode(code);
        assert!(
            (recovered - exact).abs() <= LSB,
            "num {} den {} code {}",
            num,
            den,
            code
        );
        num += 7;
    }
}

#[test]
fn q31_round_trip_power_of_two_grid() {
    let den: i64 = 1 << 20;
    for k in 0..4096 {
        let num = -den + k * 512 + 3;
        if num >= den {
            break;
        }
        let code = q31_from_fraction(num, den);
        let exact = num as f64 / den as f64;
        assert!((decode(code) - exact).abs() <= LSB);
    }
}

#[test]
fn q31_ties_round_away_from_zero() {
    // num / 2^32 puts the scaled value exactly half a step from a code:
    // the tie goes away from zero.
    let den: i64 = 0x1_0000_0000;
    assert_eq!(q31_from_fraction(1, den), 1);
    assert_eq!(q31_from_fraction(3, den), 2);
    assert_eq!(q31_from_fraction(5, den), 3);
    assert_eq!(q31_from_fraction(-1, den), -1);
    assert_eq!(q31_from_fraction(-3, den), -2);
    assert_eq!(q31_from_fraction(-5, den), -3);
}

#[test]
fn q31_saturates_just_below_one() {
    // 1 - 2^-33 would round to 2^31; the code saturates instead.
    let den: i64 = 0x1_0000_0000;
    assert_eq!(q31_from_fraction(den - 1, den), i32::MAX);
    // Slightly lower values round normally, ties still going away
    // from zero.
    assert_eq!(q31_from_fraction(den - 2, den), i32::MAX);
    assert_eq!(q31_from_fraction(den - 3, den), i32::MAX);
    assert_eq!(q31_from_fraction(den - 4, den), i32::MAX - 1);
}

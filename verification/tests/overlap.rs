use std::num::FpCategory;

use twofloat::no_overlap;

fn bits(x: f64) -> u64 {
    x.to_bits()
}

fn pow2(e: i32) -> f64 {
    f64::from(e).exp2()
}

/// The rule written with the float operations of std, to hold the library
/// against.
fn by_floats(a: f64, b: f64) -> bool {
    let exponent = |x: f64| ((x.to_bits() >> 52) & 0x7ff) as u32;
    match (a.classify(), b.classify()) {
        (FpCategory::Normal, FpCategory::Normal) => exponent(a) >= exponent(b) + 53,
        (FpCategory::Normal, FpCategory::Subnormal) => {
            if exponent(a) >= 53 {
                true
            } else {
                let mantissa = b.to_bits() & ((1 << 52) - 1);
                exponent(a) >= 65 - mantissa.leading_zeros()
            }
        }
        (FpCategory::Normal, FpCategory::Zero) => true,
        (FpCategory::Subnormal, FpCategory::Zero) => true,
        (FpCategory::Zero, FpCategory::Zero) => true,
        _ => false,
    }
}

fn samples() -> Vec<f64> {
    let mut v = vec![
        0.0,
        -0.0,
        1.0,
        -1.0,
        0.25,
        35.2,
        1e-200,
        -1e-200,
        1e300,
        1e-300,
        f64::MAX,
        f64::MIN,
        f64::MIN_POSITIVE,
        -f64::MIN_POSITIVE,
        f64::EPSILON,
        f64::INFINITY,
        f64::NEG_INFINITY,
        f64::NAN,
        f64::from_bits(1),
        f64::from_bits(0x8000_0000_0000_0001),
        f64::from_bits(0x000f_ffff_ffff_ffff),
        f64::from_bits(0x0008_0000_0000_0000),
        f64::from_bits(0x0000_0000_0010_0000),
        f64::from_bits(0x7ff0_0000_0000_0001),
        f64::from_bits(0xfff8_0000_0000_0000),
    ];
    let mut e = -1080;
    while e <= 1023 {
        v.push(pow2(e));
        v.push(-pow2(e) * 1.5);
        e += 13;
    }
    let mut k = 1;
    while k <= 66 {
        v.push(f64::from_bits((k as u64) << 52));
        k += 1;
    }
    let mut s = 0;
    while s < 52 {
        v.push(f64::from_bits(1u64 << s));
        v.push(f64::from_bits((1u64 << s) | 1));
        s += 1;
    }
    v
}

#[test]
fn no_overlap_test() {
    assert!(!no_overlap(bits(1.0), bits((-52f64).exp2())));
    assert!(!no_overlap(bits(-1.0), bits(-(-52f64).exp2())));
    assert!(no_overlap(bits(1.0), bits((-53f64).exp2())));
    assert!(no_overlap(bits(-1.0), bits(-(-53f64).exp2())));
    assert!(no_overlap(bits(1.0), bits((-1023f64).exp2())));
    assert!(no_overlap(bits(1.0), bits(-(-1023f64).exp2())));
    assert!(no_overlap(bits(1.0), bits(0.0)));
    assert!(no_overlap(bits(-1.0), bits(-0.0)));

    assert!(!no_overlap(bits((-970f64).exp2()), bits((-1022f64).exp2())));
    assert!(no_overlap(bits((-970f64).exp2()), bits((-1023f64).exp2())));
    assert!(!no_overlap(bits((-971f64).exp2()), bits((-1023f64).exp2())));
    assert!(no_overlap(bits((-971f64).exp2()), bits((-1024f64).exp2())));

    assert!(no_overlap(bits((-1023f64).exp2()), bits(0.0)));
    assert!(!no_overlap(bits((-1023f64).exp2()), bits(f64::MIN)));

    assert!(!no_overlap(bits(f64::INFINITY), bits(1.0)));
    assert!(!no_overlap(bits(f64::NAN), bits(1.0)));

    assert!(!no_overlap(bits(0.0), bits(1.0)));
    assert!(!no_overlap(bits(0.0), bits(f64::MIN)));
    assert!(no_overlap(bits(0.0), bits(0.0)));
}

#[test]
fn no_overlap_of_literal_bit_patterns() {
    // 1.0 over 2^-52 and over 2^-53
    assert!(!no_overlap(0x3ff0_0000_0000_0000, 0x3cb0_0000_0000_0000));
    assert!(no_overlap(0x3ff0_0000_0000_0000, 0x3ca0_0000_0000_0000));
    // exponent fields 54 and 1: exactly 53 apart
    assert!(no_overlap(0x0360_0000_0000_0000, 0x0010_0000_0000_0000));
    // exponent fields 53 and 1: 52 apart
    assert!(!no_overlap(0x0350_0000_0000_0000, 0x0010_0000_0000_0000));
    // the largest exponent over the largest that it admits
    assert!(no_overlap(0x7fe0_0000_0000_0000, 0x7c90_0000_0000_0000));
    assert!(!no_overlap(0x7fe0_0000_0000_0000, 0x7ca0_0000_0000_0000));
}

#[test]
fn no_overlap_examples() {
    assert!(no_overlap(bits(1.0), bits(-1e-200)));
    assert!(!no_overlap(bits(1e-200), bits(1.0)));
    assert!(!no_overlap(bits(1.0), bits(0.25)));
}

#[test]
fn no_overlap_normal_pair_goes_by_exponents() {
    let mut ea = -1022;
    while ea <= 1023 {
        let mut eb = -1022;
        while eb <= 1023 {
            let expected = ea >= eb + 53;
            assert_eq!(no_overlap(bits(pow2(ea)), bits(pow2(eb))), expected);
            assert_eq!(no_overlap(bits(-pow2(ea) * 1.75), bits(pow2(eb) * 1.25)), expected);
            eb += 7;
        }
        assert!(no_overlap(bits(pow2(ea)), bits(pow2(ea - 53))) || ea - 53 < -1022);
        assert!(!no_overlap(bits(pow2(ea)), bits(pow2(ea - 52))) || ea - 52 < -1022);
        ea += 5;
    }
}

#[test]
fn no_overlap_zero_low_word() {
    let highs = [
        0.0,
        -0.0,
        f64::from_bits(1),
        -f64::from_bits(1),
        f64::from_bits(0x000f_ffff_ffff_ffff),
        f64::MIN_POSITIVE,
        1.0,
        -35.2,
        f64::MAX,
        f64::MIN,
    ];
    for x in highs {
        assert!(no_overlap(bits(x), bits(0.0)));
        assert!(no_overlap(bits(x), bits(-0.0)));
    }
}

#[test]
fn no_overlap_special_high_word() {
    for y in samples() {
        assert!(!no_overlap(bits(f64::INFINITY), bits(y)));
        assert!(!no_overlap(bits(f64::NEG_INFINITY), bits(y)));
        assert!(!no_overlap(bits(f64::NAN), bits(y)));
        assert!(!no_overlap(0x7ff0_0000_0000_0001, bits(y)));
    }
}

#[test]
fn no_overlap_special_low_word() {
    for x in samples() {
        assert!(!no_overlap(bits(x), bits(f64::INFINITY)));
        assert!(!no_overlap(bits(x), bits(f64::NEG_INFINITY)));
        assert!(!no_overlap(bits(x), bits(f64::NAN)));
    }
}

#[test]
fn no_overlap_concrete_cases() {
    assert!(!no_overlap(bits(1.0), bits(pow2(-52))));
    assert!(no_overlap(bits(1.0), bits(pow2(-53))));
    assert!(no_overlap(bits(1.0), bits(pow2(-1023))));
    assert!(!no_overlap(bits(0.0), bits(1.0)));
    assert!(no_overlap(bits(0.0), bits(0.0)));
    assert!(no_overlap(bits(pow2(-1023)), bits(0.0)));
    assert!(!no_overlap(bits(pow2(-1023)), bits(f64::MIN)));
}

#[test]
fn no_overlap_small_high_word_takes_only_zero() {
    let smallest = f64::from_bits(1);
    assert!(!no_overlap(bits(pow2(-1023)), bits(smallest)));
    assert!(!no_overlap(bits(smallest), bits(smallest)));
    assert!(!no_overlap(bits(0.0), bits(smallest)));
    assert!(!no_overlap(bits(-0.0), bits(1.0)));
    assert!(no_overlap(bits(-0.0), bits(0.0)));
    assert!(no_overlap(bits(smallest), bits(-0.0)));
}

#[test]
fn no_overlap_subnormal_boundary() {
    // The smallest subnormal has 63 leading zeros: the threshold is 2.
    let smallest = 1u64;
    assert!(!no_overlap(0x0010_0000_0000_0000, smallest));
    assert!(no_overlap(0x0020_0000_0000_0000, smallest));
    // The largest subnormal has 12 leading zeros: the threshold is 53.
    let largest = 0x000f_ffff_ffff_ffffu64;
    assert!(!no_overlap(0x0340_0000_0000_0000, largest));
    assert!(no_overlap(0x0350_0000_0000_0000, largest));
    // Bit 20 alone gives 43 leading zeros: the threshold is 22.
    let middle = 1u64 << 20;
    assert!(!no_overlap(0x0150_0000_0000_0000, middle));
    assert!(no_overlap(0x0160_0000_0000_0000, middle));
    assert!(no_overlap(0x8160_0000_0000_0000, middle | 0x8000_0000_0000_0000));
    // Lower bits of the low word do not move the threshold.
    assert!(!no_overlap(0x0150_0000_0000_0000, middle | 1));
    assert!(no_overlap(0x0160_0000_0000_0000, middle | 1));
}

#[test]
fn no_overlap_agrees_with_float_operations() {
    let values = samples();
    for &a in &values {
        for &b in &values {
            assert_eq!(
                no_overlap(bits(a), bits(b)),
                by_floats(a, b),
                "{:e} over {:e}",
                a,
                b
            );
        }
    }
}

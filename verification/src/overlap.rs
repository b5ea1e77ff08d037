//! The non-overlap rule: when two words can stand as the high and the low
//! word of one double-double number.

use vstd::prelude::*;
use vstd::std_specs::bits::{axiom_u64_leading_zeros, u64_leading_zeros};
use crate::word::{
    category_of, classify, exponent, exponent_field, mantissa, mantissa_field, Category,
    MANTISSA_DIGITS,
};

verus! {

/// Whether `a`, the more significant word, and `b`, the less significant one,
/// share no bit position.
///
/// Only a normal or zero-valued pair is ever certified:
/// * two normal words, when the exponent of `a` is at least 53 above that of `b`;
/// * a normal `a` over a subnormal `b`, when the exponent of `a` is at least
///   53, or at least 65 less the leading zeros of the mantissa of `b`;
/// * a zero `b` under a normal, subnormal or zero `a`.
pub open spec fn non_overlapping(a: u64, b: u64) -> bool {
    match (category_of(a), category_of(b)) {
        (Category::Normal, Category::Normal) => exponent_field(a) >= exponent_field(b) + 53,
        (Category::Normal, Category::Subnormal) => {
            ||| exponent_field(a) >= 53
            ||| exponent_field(a) >= 65 - u64_leading_zeros(mantissa_field(b))
        },
        (Category::Normal, Category::Zero) => true,
        (Category::Subnormal, Category::Zero) => true,
        (Category::Zero, Category::Zero) => true,
        _ => false,
    }
}

/// The position of the lowest bit that a normal word can hold, counted from
/// the lowest bit of the subnormal range.
pub open spec fn unit_position(a: u64) -> int
    recommends
        category_of(a) == Category::Normal,
{
    exponent_field(a) as int - 1
}

/// The position of the highest bit set in a normal or subnormal word, counted
/// from the lowest bit of the subnormal range.
pub open spec fn leading_position(b: u64) -> int
    recommends
        category_of(b) == Category::Normal || category_of(b) == Category::Subnormal,
{
    if category_of(b) == Category::Normal {
        exponent_field(b) as int + 51
    } else {
        63 - u64_leading_zeros(mantissa_field(b))
    }
}

/// A mantissa field has at least twelve leading zeros, and fewer than 64 when
/// it is not zero.
pub proof fn lemma_mantissa_leading_zeros(b: u64)
    ensures
        12 <= u64_leading_zeros(mantissa_field(b)) <= 64,
        mantissa_field(b) != 0 ==> u64_leading_zeros(mantissa_field(b)) < 64,
{
    let m = mantissa_field(b);
    axiom_u64_leading_zeros(m);
    let z = u64_leading_zeros(m);
    if z < 12 {
        let k: u64 = (63 - z) as u64;
        assert((m >> k) & 1u64 != 0u64);
        assert((m >> k) & 1u64 != 0u64 && 52 <= k < 64 ==> m >= 0x10_0000_0000_0000)
            by (bit_vector);
    }
}

/// Whether `a` and `b` do not overlap, `a` being the more significant word.
pub fn no_overlap(a: u64, b: u64) -> (r: bool)
    ensures
        r == non_overlapping(a, b),
{
    match (classify(a), classify(b)) {
        (Category::Normal, Category::Normal) => exponent(a) >= exponent(b) + MANTISSA_DIGITS,
        (Category::Normal, Category::Subnormal) => {
            let a_exponent: u32 = exponent(a);
            if a_exponent >= MANTISSA_DIGITS {
                true
            } else {
                let b_mantissa: u64 = mantissa(b);
                proof {
                    lemma_mantissa_leading_zeros(b);
                }
                a_exponent >= 65 - b_mantissa.leading_zeros()
            }
        },
        (Category::Normal, Category::Zero) => true,
        (Category::Subnormal, Category::Zero) => true,
        (Category::Zero, Category::Zero) => true,
        _ => false,
    }
}

/// Two normal words do not overlap exactly when the exponent of the first is
/// at least 53 above the exponent of the second.
pub proof fn lemma_normal_pair(a: u64, b: u64)
    requires
        category_of(a) == Category::Normal,
        category_of(b) == Category::Normal,
    ensures
        non_overlapping(a, b) <==> exponent_field(a) >= exponent_field(b) + 53,
{
}

/// A zero low word overlaps no finite high word.
pub proof fn lemma_zero_low_word(a: u64, b: u64)
    requires
        category_of(b) == Category::Zero,
        category_of(a) == Category::Zero || category_of(a) == Category::Subnormal || category_of(
            a,
        ) == Category::Normal,
    ensures
        non_overlapping(a, b),
{
}

/// An infinite or NaN high word is never certified, whatever the low word.
pub proof fn lemma_special_high_word(a: u64, b: u64)
    requires
        category_of(a) == Category::Infinite || category_of(a) == Category::Nan,
    ensures
        !non_overlapping(a, b),
{
}

/// An infinite or NaN low word is never certified, whatever the high word.
pub proof fn lemma_special_low_word(a: u64, b: u64)
    requires
        category_of(b) == Category::Infinite || category_of(b) == Category::Nan,
    ensures
        !non_overlapping(a, b),
{
}

/// Under a normal high word, a normal or subnormal low word is certified
/// exactly when its highest set bit lies below the lowest bit that the high
/// word can hold.
pub proof fn lemma_bit_positions(a: u64, b: u64)
    requires
        category_of(a) == Category::Normal,
        category_of(b) == Category::Normal || category_of(b) == Category::Subnormal,
    ensures
        non_overlapping(a, b) <==> leading_position(b) < unit_position(a),
{
    lemma_mantissa_leading_zeros(b);
}

/// Under a zero or subnormal high word only a zero low word is certified.
pub proof fn lemma_small_high_word(a: u64, b: u64)
    requires
        category_of(a) == Category::Zero || category_of(a) == Category::Subnormal,
    ensures
        non_overlapping(a, b) <==> category_of(b) == Category::Zero,
{
}

} // verus!

//! The number that a finite word stands for, and what order and non-overlap
//! say of it.
//!
//! The lowest bit of a subnormal word is worth 2^-1074, and every finite word
//! is a whole multiple of that unit. Counting in that unit, a finite word is
//! an integer.

use core::cmp::Ordering;
use vstd::arithmetic::power2::{
    lemma2_to64_rest, lemma_pow2_adds, lemma_pow2_pos, lemma_pow2_strictly_increases, pow2,
};
use vstd::bits::lemma_u64_shr_is_div;
use vstd::prelude::*;
use vstd::std_specs::bits::{axiom_u64_leading_zeros, u64_leading_zeros};
use crate::order::{words_equal, words_order};
use crate::overlap::{
    leading_position, lemma_bit_positions, lemma_mantissa_leading_zeros, non_overlapping,
    unit_position,
};
use crate::pair::TwoFloat;
use crate::word::{
    category_of, exponent_field, finite, magnitude, mantissa_field, sign_field, Category,
};

verus! {

/// The size of a finite word, in units of 2^-1074: the mantissa alone for a
/// zero or subnormal word, and the mantissa under its implicit bit, shifted
/// by the exponent, for a normal word.
pub open spec fn scaled_magnitude(w: u64) -> nat
    recommends
        finite(w),
{
    if exponent_field(w) == 0 {
        mantissa_field(w) as nat
    } else {
        (0x10_0000_0000_0000 + mantissa_field(w)) as nat * pow2((exponent_field(w) - 1) as nat)
    }
}

/// The number that a finite word stands for, in units of 2^-1074.
pub open spec fn scaled_value(w: u64) -> int
    recommends
        finite(w),
{
    if sign_field(w) {
        -(scaled_magnitude(w) as int)
    } else {
        scaled_magnitude(w) as int
    }
}

/// Powers of two do not decrease with the exponent.
pub proof fn lemma_pow2_monotone(e1: nat, e2: nat)
    requires
        e1 <= e2,
    ensures
        0 < pow2(e1) <= pow2(e2),
{
    lemma_pow2_pos(e1);
    if e1 < e2 {
        lemma_pow2_strictly_increases(e1, e2);
    }
}

/// A normal word with exponent field `e` lies between 2^(e+51) and 2^(e+52)
/// units.
pub proof fn lemma_normal_magnitude_bounds(w: u64)
    requires
        category_of(w) == Category::Normal,
    ensures
        pow2(exponent_field(w) + 51) <= scaled_magnitude(w) < pow2(exponent_field(w) + 52),
{
    let e = exponent_field(w);
    let m = mantissa_field(w) as nat;
    let p = pow2((e - 1) as nat);
    lemma2_to64_rest();
    lemma_pow2_adds(52, (e - 1) as nat);
    lemma_pow2_adds(53, (e - 1) as nat);
    lemma_pow2_pos((e - 1) as nat);
    assert(pow2(52) * p <= (0x10_0000_0000_0000 + m) * p < pow2(53) * p) by (nonlinear_arith)
        requires
            pow2(52) == 0x10_0000_0000_0000,
            pow2(53) == 0x20_0000_0000_0000,
            m < 0x10_0000_0000_0000,
            p > 0,
    ;
    assert(52 + (e - 1) as nat == e + 51);
    assert(53 + (e - 1) as nat == e + 52);
}

/// Among finite words, a larger magnitude field is a larger size.
pub proof fn lemma_magnitude_increases(a: u64, b: u64)
    requires
        finite(a),
        finite(b),
        magnitude(a) < magnitude(b),
    ensures
        scaled_magnitude(a) < scaled_magnitude(b),
{
    let ea = exponent_field(a);
    let eb = exponent_field(b);
    let ma = mantissa_field(a) as nat;
    let mb = mantissa_field(b) as nat;
    lemma2_to64_rest();
    if ea == eb {
        if ea != 0 {
            let p = pow2((ea - 1) as nat);
            lemma_pow2_pos((ea - 1) as nat);
            assert((0x10_0000_0000_0000 + ma) * p < (0x10_0000_0000_0000 + mb) * p)
                by (nonlinear_arith)
                requires
                    ma < mb,
                    p > 0,
            ;
        }
    } else {
        assert(ea < eb);
        lemma_normal_magnitude_bounds(b);
        if ea == 0 {
            lemma_pow2_monotone(52, eb + 51);
        } else {
            lemma_normal_magnitude_bounds(a);
            lemma_pow2_monotone(ea + 52, eb + 51);
        }
    }
}

/// Finite words are ordered as the numbers that they stand for, and equal
/// exactly when they stand for the same number.
pub proof fn lemma_order_is_value_order(a: u64, b: u64)
    requires
        finite(a),
        finite(b),
    ensures
        words_order(a, b) == Some(Ordering::Less) <==> scaled_value(a) < scaled_value(b),
        words_order(a, b) == Some(Ordering::Equal) <==> scaled_value(a) == scaled_value(b),
        words_order(a, b) == Some(Ordering::Greater) <==> scaled_value(a) > scaled_value(b),
        words_equal(a, b) <==> scaled_value(a) == scaled_value(b),
{
    if magnitude(a) < magnitude(b) {
        lemma_magnitude_increases(a, b);
    }
    if magnitude(b) < magnitude(a) {
        lemma_magnitude_increases(b, a);
    }
    if magnitude(a) > 0 {
        lemma_magnitude_increases(0, a);
    }
    if magnitude(b) > 0 {
        lemma_magnitude_increases(0, b);
    }
}

/// A subnormal word lies between the power of two at its highest set bit and
/// the next power of two.
pub proof fn lemma_subnormal_magnitude_bounds(w: u64)
    requires
        category_of(w) == Category::Subnormal,
    ensures
        0 <= leading_position(w) < 52,
        pow2(leading_position(w) as nat) <= scaled_magnitude(w) < pow2(
            (leading_position(w) + 1) as nat,
        ),
{
    let m = mantissa_field(w);
    let z = u64_leading_zeros(m);
    lemma_mantissa_leading_zeros(w);
    axiom_u64_leading_zeros(m);
    let k: u64 = (63 - z) as u64;
    let above: u64 = (64 - z) as u64;
    assert((m >> k) & 1u64 != 0u64);
    assert(m >> above == 0);
    assert((m >> k) & 1u64 != 0u64 ==> m >> k != 0) by (bit_vector);
    lemma_u64_shr_is_div(m, k);
    lemma_u64_shr_is_div(m, above);
    lemma_pow2_pos(k as nat);
    lemma_pow2_pos(above as nat);
    let pk = pow2(k as nat) as int;
    let pa = pow2(above as nat) as int;
    assert(m >= pk) by (nonlinear_arith)
        requires
            m as int / pk != 0,
            pk > 0,
    ;
    assert(m < pa) by (nonlinear_arith)
        requires
            m as int / pa == 0,
            pa > 0,
    ;
}

/// Under a normal high word, a normal or subnormal low word is certified
/// exactly when it is smaller than the unit in the last place of the high
/// word, of which the high word is a whole multiple.
pub proof fn lemma_low_word_below_unit(a: u64, b: u64)
    requires
        category_of(a) == Category::Normal,
        category_of(b) == Category::Normal || category_of(b) == Category::Subnormal,
    ensures
        non_overlapping(a, b) <==> scaled_magnitude(b) < pow2(unit_position(a) as nat),
        scaled_magnitude(a) == (0x10_0000_0000_0000 + mantissa_field(a)) * pow2(
            unit_position(a) as nat,
        ),
{
    lemma_bit_positions(a, b);
    if category_of(b) == Category::Normal {
        lemma_normal_magnitude_bounds(b);
    } else {
        lemma_subnormal_magnitude_bounds(b);
    }
    let top = leading_position(b);
    let unit = unit_position(a);
    if top < unit {
        lemma_pow2_monotone((top + 1) as nat, unit as nat);
    } else {
        lemma_pow2_monotone(unit as nat, top as nat);
    }
}

/// In a valid pair the low word is zero, or the high word is normal and the
/// low word is smaller than the unit in the last place of the high word, and
/// so smaller than the high word.
pub proof fn lemma_valid_low_word_is_small(a: TwoFloat)
    requires
        a.valid(),
    ensures
        category_of(a.lo) == Category::Zero <==> scaled_magnitude(a.lo) == 0,
        category_of(a.lo) != Category::Zero ==> {
            &&& category_of(a.hi) == Category::Normal
            &&& scaled_magnitude(a.lo) < pow2(unit_position(a.hi) as nat)
            &&& pow2(unit_position(a.hi) as nat) <= scaled_magnitude(a.hi)
        },
{
    if category_of(a.lo) != Category::Zero {
        lemma_low_word_below_unit(a.hi, a.lo);
        let p = pow2(unit_position(a.hi) as nat);
        let m = mantissa_field(a.hi) as nat;
        lemma_pow2_pos(unit_position(a.hi) as nat);
        assert(p <= (0x10_0000_0000_0000 + m) * p) by (nonlinear_arith)
            requires
                p > 0,
        ;
        if category_of(a.lo) == Category::Normal {
            lemma_normal_magnitude_bounds(a.lo);
            lemma_pow2_pos(exponent_field(a.lo) + 51);
        }
    }
}

} // verus!

//! Equality and order of two words as numbers: both zeros are equal, and a
//! NaN is neither equal to anything nor ordered with anything.

use core::cmp::Ordering;
use vstd::prelude::*;
use crate::word::{is_nan, magnitude_bits, nan, order_key, sign};

verus! {

/// Numeric equality of two words.
pub open spec fn words_equal(a: u64, b: u64) -> bool {
    !nan(a) && !nan(b) && order_key(a) == order_key(b)
}

/// The numeric order of two words: `None` when either is a NaN.
pub open spec fn words_order(a: u64, b: u64) -> Option<Ordering> {
    if nan(a) || nan(b) {
        None
    } else if order_key(a) < order_key(b) {
        Some(Ordering::Less)
    } else if order_key(a) == order_key(b) {
        Some(Ordering::Equal)
    } else {
        Some(Ordering::Greater)
    }
}

/// Whether `a` and `b` are equal as numbers.
pub fn word_eq(a: u64, b: u64) -> (r: bool)
    ensures
        r == words_equal(a, b),
{
    if is_nan(a) || is_nan(b) {
        return false;
    }
    let ma: u64 = magnitude_bits(a);
    let mb: u64 = magnitude_bits(b);
    if sign(a) == sign(b) {
        ma == mb
    } else {
        ma == 0 && mb == 0
    }
}

/// The order of `a` and `b` as numbers, if they are ordered.
pub fn word_partial_cmp(a: u64, b: u64) -> (r: Option<Ordering>)
    ensures
        r == words_order(a, b),
{
    if is_nan(a) || is_nan(b) {
        return None;
    }
    let negative_a = sign(a);
    let negative_b = sign(b);
    let ma: u64 = magnitude_bits(a);
    let mb: u64 = magnitude_bits(b);
    if negative_a == negative_b {
        if ma == mb {
            Some(Ordering::Equal)
        } else if (ma < mb) != negative_a {
            Some(Ordering::Less)
        } else {
            Some(Ordering::Greater)
        }
    } else if ma == 0 && mb == 0 {
        Some(Ordering::Equal)
    } else if negative_a {
        Some(Ordering::Less)
    } else {
        Some(Ordering::Greater)
    }
}

/// Two words are equal exactly when they are ordered as equal.
pub proof fn lemma_equal_is_ordered_equal(a: u64, b: u64)
    ensures
        words_equal(a, b) <==> words_order(a, b) == Some(Ordering::Equal),
{
}

/// Swapping the operands reverses the order.
pub proof fn lemma_order_reverses(a: u64, b: u64)
    ensures
        words_order(a, b) == Some(Ordering::Less) <==> words_order(b, a) == Some(
            Ordering::Greater,
        ),
        words_order(a, b) == Some(Ordering::Equal) <==> words_order(b, a) == Some(
            Ordering::Equal,
        ),
        words_order(a, b).is_none() <==> words_order(b, a).is_none(),
{
}

/// Two words are unordered exactly when one of them is a NaN.
pub proof fn lemma_unordered_is_nan(a: u64, b: u64)
    ensures
        words_order(a, b).is_none() <==> nan(a) || nan(b),
{
}

/// The order is transitive on words that are no NaN.
pub proof fn lemma_order_transitive(a: u64, b: u64, c: u64)
    requires
        words_order(a, b) matches Some(Ordering::Less | Ordering::Equal),
        words_order(b, c) matches Some(Ordering::Less | Ordering::Equal),
    ensures
        words_order(a, c) matches Some(Ordering::Less | Ordering::Equal),
{
}

} // verus!

//! The double-double number itself: validity, equality, order and selection.

use core::cmp::Ordering;
use vstd::prelude::*;
use vstd::std_specs::cmp::{PartialEqSpecImpl, PartialOrdSpecImpl};
use crate::order::{word_eq, word_partial_cmp, words_equal, words_order};
use crate::overlap::{no_overlap, non_overlapping};
use crate::word::{category_of, finite, is_finite, Category};

verus! {

/// A number held as the sum of two binary64 words, each given by its bit
/// pattern. The pair is a reliable number only while it is valid: both words
/// finite, and the low word below every bit of the high word.
#[derive(Clone, Copy, Debug)]
pub struct TwoFloat {
    /// The word that carries the leading bits.
    pub hi: u64,
    /// The word that carries the trailing correction.
    pub lo: u64,
}

/// The bit pattern of positive zero.
pub const ZERO_BITS: u64 = 0;

/// The bit pattern of the quiet NaN that marks an error value.
pub const NAN_BITS: u64 = 0x7ff8_0000_0000_0000;

/// The order of two pairs: by the high words, and by the low words where the
/// high words are equal. `None` as soon as a word that decides is a NaN.
pub open spec fn pair_order(a: TwoFloat, b: TwoFloat) -> Option<Ordering> {
    if words_order(a.hi, b.hi) == Some(Ordering::Equal) {
        words_order(a.lo, b.lo)
    } else {
        words_order(a.hi, b.hi)
    }
}

/// Numeric equality of two pairs: word by word.
pub open spec fn pair_equal(a: TwoFloat, b: TwoFloat) -> bool {
    words_equal(a.hi, b.hi) && words_equal(a.lo, b.lo)
}

/// The pair that stands for a plain word: the word over a zero low word.
pub open spec fn pair_of_scalar(x: u64) -> TwoFloat {
    TwoFloat { hi: x, lo: 0 }
}

impl TwoFloat {
    /// Both words are finite and do not overlap.
    pub open spec fn valid(self) -> bool {
        finite(self.hi) && finite(self.lo) && non_overlapping(self.hi, self.lo)
    }

    /// `self` is ordered before `other`, or equal to it.
    pub open spec fn at_most(self, other: TwoFloat) -> bool {
        pair_order(self, other) matches Some(Ordering::Less | Ordering::Equal)
    }

    /// `self` is ordered after `other`, or equal to it.
    pub open spec fn at_least(self, other: TwoFloat) -> bool {
        pair_order(self, other) matches Some(Ordering::Greater | Ordering::Equal)
    }

    /// The smaller of two pairs, where an invalid pair gives way to the
    /// other: `other` when `self` is invalid, whatever `other` is; `self` when
    /// only `other` is invalid, or when `self` is at most `other`.
    pub open spec fn min_of(self, other: TwoFloat) -> TwoFloat {
        if !self.valid() {
            other
        } else if !other.valid() || self.at_most(other) {
            self
        } else {
            other
        }
    }

    /// The larger of two pairs, where an invalid pair gives way to the
    /// other: `other` when `self` is invalid, whatever `other` is; `self` when
    /// only `other` is invalid, or when `self` is at least `other`.
    pub open spec fn max_of(self, other: TwoFloat) -> TwoFloat {
        if !self.valid() {
            other
        } else if !other.valid() || self.at_least(other) {
            self
        } else {
            other
        }
    }

    /// The pair is numerically equal to the plain word `x`: the high word
    /// equals `x` and the low word is a zero of either sign.
    pub open spec fn equals_scalar(self, x: u64) -> bool {
        words_equal(self.hi, x) && words_equal(self.lo, 0)
    }

    /// The order of the pair on the left and the plain word `x` on the right.
    pub open spec fn order_with_scalar(self, x: u64) -> Option<Ordering> {
        if words_order(self.hi, x) == Some(Ordering::Equal) {
            words_order(self.lo, 0)
        } else {
            words_order(self.hi, x)
        }
    }

    /// The order of the plain word `x` on the left and the pair on the right.
    pub open spec fn order_of_scalar(x: u64, other: TwoFloat) -> Option<Ordering> {
        if words_order(x, other.hi) == Some(Ordering::Equal) {
            words_order(0, other.lo)
        } else {
            words_order(x, other.hi)
        }
    }

    /// The error value: a NaN in both words. It is invalid, equal to nothing
    /// and ordered with nothing.
    pub fn nan() -> (r: TwoFloat)
        ensures
            r == (TwoFloat { hi: NAN_BITS, lo: NAN_BITS }),
            !r.valid(),
    {
        proof {
            lemma_nan_invalid();
        }
        TwoFloat { hi: NAN_BITS, lo: NAN_BITS }
    }

    /// The high word.
    pub fn hi(&self) -> (r: u64)
        ensures
            r == self.hi,
    {
        self.hi
    }

    /// The low word.
    pub fn lo(&self) -> (r: u64)
        ensures
            r == self.lo,
    {
        self.lo
    }

    /// Whether both words are finite and do not overlap.
    pub fn is_valid(&self) -> (r: bool)
        ensures
            r == self.valid(),
    {
        is_finite(self.hi) && is_finite(self.lo) && no_overlap(self.hi, self.lo)
    }

    /// The smaller of `self` and `other`; an invalid one gives way to the
    /// other, and `other` is returned when both are invalid.
    pub fn min(self, other: TwoFloat) -> (r: TwoFloat)
        ensures
            r == self.min_of(other),
    {
        if !self.is_valid() {
            other
        } else if !other.is_valid() || self <= other {
            self
        } else {
            other
        }
    }

    /// The larger of `self` and `other`; an invalid one gives way to the
    /// other, and `other` is returned when both are invalid.
    pub fn max(self, other: TwoFloat) -> (r: TwoFloat)
        ensures
            r == self.max_of(other),
    {
        if !self.is_valid() {
            other
        } else if !other.is_valid() || self >= other {
            self
        } else {
            other
        }
    }

    /// Whether the pair equals the plain word `x`, the pair standing on the
    /// left of the comparison.
    pub fn eq_scalar(&self, x: u64) -> (r: bool)
        ensures
            r == self.equals_scalar(x),
    {
        word_eq(self.hi, x) && word_eq(self.lo, ZERO_BITS)
    }

    /// Whether the plain word `x` equals the pair, the word standing on the
    /// left of the comparison.
    pub fn scalar_eq(x: u64, other: &TwoFloat) -> (r: bool)
        ensures
            r == other.equals_scalar(x),
    {
        word_eq(x, other.hi) && word_eq(other.lo, ZERO_BITS)
    }

    /// The order of the pair, on the left, and the plain word `x`, on the
    /// right.
    pub fn partial_cmp_scalar(&self, x: u64) -> (r: Option<Ordering>)
        ensures
            r == self.order_with_scalar(x),
    {
        let hi_order = word_partial_cmp(self.hi, x);
        match hi_order {
            Some(Ordering::Equal) => word_partial_cmp(self.lo, ZERO_BITS),
            _ => hi_order,
        }
    }

    /// The order of the plain word `x`, on the left, and the pair, on the
    /// right.
    pub fn scalar_partial_cmp(x: u64, other: &TwoFloat) -> (r: Option<Ordering>)
        ensures
            r == Self::order_of_scalar(x, *other),
    {
        let hi_order = word_partial_cmp(x, other.hi);
        match hi_order {
            Some(Ordering::Equal) => word_partial_cmp(ZERO_BITS, other.lo),
            _ => hi_order,
        }
    }
}

impl PartialEq for TwoFloat {
    /// Numeric equality of both words.
    fn eq(&self, other: &TwoFloat) -> (r: bool) {
        word_eq(self.hi, other.hi) && word_eq(self.lo, other.lo)
    }
}

impl PartialEqSpecImpl for TwoFloat {
    open spec fn obeys_eq_spec() -> bool {
        true
    }

    open spec fn eq_spec(&self, other: &TwoFloat) -> bool {
        pair_equal(*self, *other)
    }
}

impl PartialOrd for TwoFloat {
    /// The order by the high words, then by the low words.
    fn partial_cmp(&self, other: &TwoFloat) -> (r: Option<Ordering>) {
        let hi_order = word_partial_cmp(self.hi, other.hi);
        match hi_order {
            Some(Ordering::Equal) => word_partial_cmp(self.lo, other.lo),
            _ => hi_order,
        }
    }
}

impl PartialOrdSpecImpl for TwoFloat {
    open spec fn obeys_partial_cmp_spec() -> bool {
        true
    }

    open spec fn partial_cmp_spec(&self, other: &TwoFloat) -> Option<Ordering> {
        pair_order(*self, *other)
    }
}

/// A pair with an infinite or NaN word is invalid, whatever the other word.
pub proof fn lemma_special_word_invalid(a: TwoFloat)
    requires
        category_of(a.hi) == Category::Infinite || category_of(a.hi) == Category::Nan
            || category_of(a.lo) == Category::Infinite || category_of(a.lo) == Category::Nan,
    ensures
        !a.valid(),
{
}

/// The error value is invalid, equal to nothing and ordered with nothing.
pub proof fn lemma_nan_invalid()
    ensures
        !(TwoFloat { hi: NAN_BITS, lo: NAN_BITS }).valid(),
        forall|b: TwoFloat| !(#[trigger] pair_equal(TwoFloat { hi: NAN_BITS, lo: NAN_BITS }, b)),
        forall|b: TwoFloat|
            (#[trigger] pair_order(TwoFloat { hi: NAN_BITS, lo: NAN_BITS }, b)).is_none(),
{
    assert(category_of(NAN_BITS) == Category::Nan);
}

/// Words that do not overlap are finite, so a pair is valid exactly when its
/// words do not overlap.
pub proof fn lemma_valid_is_non_overlapping(a: TwoFloat)
    ensures
        a.valid() <==> non_overlapping(a.hi, a.lo),
{
}

/// Valid pairs that compare equal have the same minimum and maximum, which is
/// the first of them.
pub proof fn lemma_min_max_of_equal(a: TwoFloat, b: TwoFloat)
    requires
        a.valid(),
        b.valid(),
        pair_order(a, b) == Some(Ordering::Equal),
    ensures
        a.min_of(b) == a.max_of(b),
        a.min_of(b) == a,
        pair_equal(a.min_of(b), b),
{
}

/// An invalid first operand gives way: minimum and maximum are the second.
pub proof fn lemma_invalid_first(a: TwoFloat, b: TwoFloat)
    requires
        !a.valid(),
    ensures
        a.min_of(b) == b,
        a.max_of(b) == b,
{
}

/// An invalid second operand gives way to a valid first one.
pub proof fn lemma_invalid_second(a: TwoFloat, b: TwoFloat)
    requires
        a.valid(),
        !b.valid(),
    ensures
        a.min_of(b) == a,
        a.max_of(b) == a,
{
}

/// Minimum and maximum pick one of their operands, and a valid one whenever
/// an operand is valid.
pub proof fn lemma_selection(a: TwoFloat, b: TwoFloat)
    ensures
        a.min_of(b) == a || a.min_of(b) == b,
        a.max_of(b) == a || a.max_of(b) == b,
        a.valid() || b.valid() ==> a.min_of(b).valid() && a.max_of(b).valid(),
{
}

/// Valid pairs are always ordered, so of two valid pairs the minimum is at
/// most both and the maximum is at least both.
pub proof fn lemma_bounds(a: TwoFloat, b: TwoFloat)
    requires
        a.valid(),
        b.valid(),
    ensures
        pair_order(a, b).is_some(),
        a.min_of(b).at_most(a),
        a.min_of(b).at_most(b),
        a.max_of(b).at_least(a),
        a.max_of(b).at_least(b),
{
}

/// Ordering a pair with a plain word is ordering it with the pair made of
/// that word and a zero low word, on either side.
pub proof fn lemma_scalar_order_as_pair(a: TwoFloat, x: u64)
    ensures
        a.order_with_scalar(x) == pair_order(a, pair_of_scalar(x)),
        TwoFloat::order_of_scalar(x, a) == pair_order(pair_of_scalar(x), a),
{
}

/// Equality with a plain word is equality with the pair made of that word and
/// a zero low word, and holds exactly when the two are ordered as equal.
pub proof fn lemma_scalar_equality_as_pair(a: TwoFloat, x: u64)
    ensures
        a.equals_scalar(x) == pair_equal(a, pair_of_scalar(x)),
        a.equals_scalar(x) <==> a.order_with_scalar(x) == Some(Ordering::Equal),
        a.equals_scalar(x) <==> TwoFloat::order_of_scalar(x, a) == Some(Ordering::Equal),
{
}

/// Two pairs are equal exactly when they are ordered as equal.
pub proof fn lemma_equal_is_ordered_equal(a: TwoFloat, b: TwoFloat)
    ensures
        pair_equal(a, b) <==> pair_order(a, b) == Some(Ordering::Equal),
{
}

} // verus!

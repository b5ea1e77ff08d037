//! The layout of one binary64 word: sign, biased exponent, mantissa, and the
//! class of value that the fields encode.

use vstd::prelude::*;

verus! {

/// Number of significant bits of a normal word: 52 stored and one implicit.
pub const MANTISSA_DIGITS: u32 = 53;

/// The exponent field of infinities and NaNs.
pub const EXPONENT_SPECIAL: u32 = 0x7ff;

/// The bits of the mantissa field.
pub const MANTISSA_MASK: u64 = 0x000f_ffff_ffff_ffff;

/// The bits of everything but the sign.
pub const MAGNITUDE_MASK: u64 = 0x7fff_ffff_ffff_ffff;

/// The magnitude bits of an infinity; every larger magnitude is a NaN.
pub const INFINITY_BITS: u64 = 0x7ff0_0000_0000_0000;

/// The class of value that a word encodes.
#[derive(Clone, Copy, Debug, PartialEq, Eq, Structural)]
pub enum Category {
    Zero,
    Subnormal,
    Normal,
    Infinite,
    Nan,
}

/// Whether the sign bit of `w` is set.
pub open spec fn sign_field(w: u64) -> bool {
    w >= 0x8000_0000_0000_0000
}

/// The 11-bit biased exponent of `w`: bits 52 to 62.
pub open spec fn exponent_field(w: u64) -> nat {
    ((w / 0x10_0000_0000_0000) % 0x800) as nat
}

/// The 52 stored mantissa bits of `w`: bits 0 to 51.
pub open spec fn mantissa_field(w: u64) -> u64 {
    (w % 0x10_0000_0000_0000) as u64
}

/// The word without its sign: exponent and mantissa read as one integer.
pub open spec fn magnitude(w: u64) -> nat {
    (w % 0x8000_0000_0000_0000) as nat
}

/// The place of a word on the number line, for words that are no NaN: such
/// words compare as their keys do, and both zeros have the key zero.
pub open spec fn order_key(w: u64) -> int {
    if sign_field(w) {
        -(magnitude(w) as int)
    } else {
        magnitude(w) as int
    }
}

/// The class of `w`, read off its exponent and mantissa fields.
pub open spec fn category_of(w: u64) -> Category {
    if exponent_field(w) == 0 {
        if mantissa_field(w) == 0 {
            Category::Zero
        } else {
            Category::Subnormal
        }
    } else if exponent_field(w) == 0x7ff {
        if mantissa_field(w) == 0 {
            Category::Infinite
        } else {
            Category::Nan
        }
    } else {
        Category::Normal
    }
}

/// A word is finite when it is neither an infinity nor a NaN.
pub open spec fn finite(w: u64) -> bool {
    exponent_field(w) != 0x7ff
}

/// A word is a NaN when its exponent is all ones and its mantissa is not zero.
pub open spec fn nan(w: u64) -> bool {
    exponent_field(w) == 0x7ff && mantissa_field(w) != 0
}

/// The magnitude is the exponent field followed by the mantissa field.
pub proof fn lemma_magnitude_fields(w: u64)
    ensures
        magnitude(w) == exponent_field(w) * 0x10_0000_0000_0000 + mantissa_field(w),
        exponent_field(w) <= 0x7ff,
        mantissa_field(w) < 0x10_0000_0000_0000,
{
}

/// The biased exponent of `w`.
pub fn exponent(w: u64) -> (r: u32)
    ensures
        r == exponent_field(w),
        r <= 0x7ff,
{
    assert((w >> 52) & 0x7ff == (w / 0x10_0000_0000_0000) % 0x800) by (bit_vector);
    ((w >> 52) & 0x7ff) as u32
}

/// The stored mantissa bits of `w`.
pub fn mantissa(w: u64) -> (r: u64)
    ensures
        r == mantissa_field(w),
        r < 0x10_0000_0000_0000,
{
    assert(w & 0x000f_ffff_ffff_ffff == w % 0x10_0000_0000_0000) by (bit_vector);
    w & MANTISSA_MASK
}

/// Whether the sign bit of `w` is set.
pub fn sign(w: u64) -> (r: bool)
    ensures
        r == sign_field(w),
{
    w > MAGNITUDE_MASK
}

/// The bits of `w` below the sign.
pub fn magnitude_bits(w: u64) -> (r: u64)
    ensures
        r == magnitude(w),
        r <= MAGNITUDE_MASK,
{
    assert(w & 0x7fff_ffff_ffff_ffff == w % 0x8000_0000_0000_0000) by (bit_vector);
    w & MAGNITUDE_MASK
}

/// The class of `w`.
pub fn classify(w: u64) -> (r: Category)
    ensures
        r == category_of(w),
{
    let e: u32 = exponent(w);
    let m: u64 = mantissa(w);
    if e == 0 {
        if m == 0 {
            Category::Zero
        } else {
            Category::Subnormal
        }
    } else if e == EXPONENT_SPECIAL {
        if m == 0 {
            Category::Infinite
        } else {
            Category::Nan
        }
    } else {
        Category::Normal
    }
}

/// Whether `w` is neither an infinity nor a NaN.
pub fn is_finite(w: u64) -> (r: bool)
    ensures
        r == finite(w),
{
    exponent(w) != EXPONENT_SPECIAL
}

/// Whether `w` is a NaN.
pub fn is_nan(w: u64) -> (r: bool)
    ensures
        r == nan(w),
{
    exponent(w) == EXPONENT_SPECIAL && mantissa(w) != 0
}

} // verus!

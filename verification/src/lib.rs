//! Double-double numbers: a value held as the sum of two binary64 words, a
//! high word and a low word whose significant bits do not overlap.
//!
//! Every word is handled as its IEEE-754 binary64 bit pattern (a `u64`), so
//! that each rule of the representation is a statement about integers.

pub mod order;
pub mod overlap;
pub mod pair;
pub mod value;
pub mod word;

pub use overlap::no_overlap;
pub use pair::TwoFloat;

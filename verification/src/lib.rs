//! Balanced ternary arithmetic primitives.
//!
//! A [`trit::Trit`] is the ternary analogue of a bit: a value in {-1, 0, +1}
//! with three-valued logic operators and an overflow-aware addition. A
//! [`tryte::Tryte`] is an ordered word of six trits, decoded to a signed
//! integer by a base-3 positional weighted sum.

pub mod trit;
pub mod tryte;

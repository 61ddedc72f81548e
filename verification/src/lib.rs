//! Edit-based distances between finite sequences of equality-comparable
//! elements: Hamming, Levenshtein and Damerau-Levenshtein.
//!
//! Distances are exact. A raw distance is a count of edit operations; a
//! normalized distance is the fraction of that count over the length of the
//! longer input, kept as numerator and denominator.
//!
//! The elements of a sequence are of a type that implements
//! `types::element::Element`: its comparison says whether two values are
//! the same value, and the contracts speak of that equality. The library
//! implements the trait for `bool`, `char`, the integer types and
//! references to elements. Any other type, a `String` or a struct of the
//! caller's, is not covered until it is given an implementation.

pub mod distance;
pub mod edit_based;
pub mod error;
pub mod normalize;
pub mod prelude;
pub mod types;

//! The Hamming distance: the number of positions at which two sequences of
//! equal length differ.

use crate::distance::Distance;
use crate::edit_based::substitution_cost;
use crate::error::SpatiumError;
use crate::normalize::{is_normalized, is_reported, lemma_normalized_in_unit_interval, report};
use crate::types::element::Element;
use vstd::prelude::*;

pub mod hamming1;
pub mod on_exact_size_iterators;
pub mod on_iterators;

verus! {

/// The reason that the error for arguments of different lengths carries.
pub const DIFFERENT_LENGTHS: &'static str = "Arguments have different lengths.";

/// `error` is the error for arguments of different lengths.
pub open spec fn is_different_lengths(error: SpatiumError) -> bool {
    error matches SpatiumError::ValueError(reason) && reason@ == DIFFERENT_LENGTHS@
}

/// The error for arguments of different lengths.
pub fn different_lengths() -> (error: SpatiumError)
    ensures
        is_different_lengths(error),
{
    SpatiumError::ValueError(String::from_str(DIFFERENT_LENGTHS))
}

/// The number of positions at which `x` and `y` differ. Elements are
/// paired from the start; where one sequence is longer than the other, what
/// it has beyond the other's end is paired with nothing and not counted.
pub open spec fn hamming_distance<T>(x: Seq<T>, y: Seq<T>) -> nat
    decreases x.len(),
{
    if x.len() == 0 || y.len() == 0 {
        0
    } else {
        substitution_cost(x[0], y[0]) + hamming_distance(x.drop_first(), y.drop_first())
    }
}

/// The distance is at most the length of either sequence.
pub proof fn lemma_hamming_bounded<T>(x: Seq<T>, y: Seq<T>)
    ensures
        hamming_distance(x, y) <= x.len(),
        hamming_distance(x, y) <= y.len(),
    decreases x.len(),
{
    if x.len() > 0 && y.len() > 0 {
        lemma_hamming_bounded(x.drop_first(), y.drop_first());
    }
}

/// A sequence is at distance zero from itself.
pub proof fn lemma_hamming_identity<T>(s: Seq<T>)
    ensures
        hamming_distance(s, s) == 0,
    decreases s.len(),
{
    if s.len() > 0 {
        lemma_hamming_identity(s.drop_first());
    }
}

/// The distance does not depend on the order of its arguments.
pub proof fn lemma_hamming_symmetry<T>(x: Seq<T>, y: Seq<T>)
    ensures
        hamming_distance(x, y) == hamming_distance(y, x),
    decreases x.len(),
{
    if x.len() > 0 && y.len() > 0 {
        lemma_hamming_symmetry(x.drop_first(), y.drop_first());
    }
}

/// The normalized distance between any two sequences lies between zero
/// and one.
pub proof fn lemma_hamming_normalized_bounded<T>(x: Seq<T>, y: Seq<T>, normalized: Distance)
    requires
        is_normalized(normalized, hamming_distance(x, y), x.len(), y.len()),
    ensures
        0 <= normalized.spec_numerator() <= normalized.spec_denominator(),
        normalized.spec_denominator() > 0,
{
    lemma_hamming_bounded(x, y);
    lemma_normalized_in_unit_interval(normalized, hamming_distance(x, y), x.len(), y.len());
}

/// The Hamming distance between `x` and `y`, which must have the same
/// length.
pub fn hamming<T: Element>(x: &[T], y: &[T]) -> (result: Result<usize, SpatiumError>)
    ensures
        x@.len() != y@.len() ==> result is Err && is_different_lengths(result->Err_0),
        x@.len() == y@.len() ==> result is Ok && result->Ok_0 == hamming_distance(x@, y@),
        x@.len() == y@.len() ==> result->Ok_0 <= x@.len(),
{
    if x.len() != y.len() {
        return Err(different_lengths());
    }
    let mut distance: usize = 0;
    let mut i: usize = 0;
    assert(x@.skip(0) == x@ && y@.skip(0) == y@);
    while i < x.len()
        invariant
            i <= x@.len(),
            x@.len() == y@.len(),
            distance <= i,
            distance + hamming_distance(x@.skip(i as int), y@.skip(i as int))
                == hamming_distance(x@, y@),
        decreases x@.len() - i,
    {
        assert(x@.skip(i as int).drop_first() == x@.skip(i + 1));
        assert(y@.skip(i as int).drop_first() == y@.skip(i + 1));
        if !x[i].same_as(&y[i]) {
            distance += 1;
        }
        i += 1;
    }
    Ok(distance)
}

/// The Hamming distance with its option: whether the distance is reported
/// normalized.
pub struct Hamming {
    normalized: bool,
}

impl Default for Hamming {
    fn default() -> (algorithm: Self)
        ensures
            !algorithm.normalized(),
    {
        Hamming { normalized: false }
    }
}

impl Hamming {
    /// Whether `distance` reports the distance normalized.
    pub closed spec fn normalized(&self) -> bool {
        self.normalized
    }

    /// The distance, not normalized.
    pub fn new() -> (algorithm: Self)
        ensures
            !algorithm.normalized(),
    {
        Hamming { normalized: false }
    }

    /// Sets whether the distance is reported normalized: divided by the
    /// length of the sequences.
    pub fn normalize_result(self, normalized: bool) -> (algorithm: Self)
        ensures
            algorithm.normalized() == normalized,
    {
        Hamming { normalized }
    }

    /// The Hamming distance between `x` and `y`, which must have the same
    /// length, normalized where that was asked for.
    pub fn distance<T: Element>(&self, x: &[T], y: &[T]) -> (result: Result<Distance, SpatiumError>)
        ensures
            x@.len() != y@.len() ==> result is Err && is_different_lengths(result->Err_0),
            x@.len() == y@.len() ==> result is Ok,
            x@.len() == y@.len() ==> is_reported(
                result->Ok_0,
                hamming_distance(x@, y@),
                self.normalized(),
                x@.len(),
                y@.len(),
            ),
            x@.len() == y@.len() && self.normalized() ==> result->Ok_0.spec_numerator()
                <= result->Ok_0.spec_denominator(),
    {
        match hamming(x, y) {
            Ok(distance) => {
                proof {
                    lemma_hamming_bounded(x@, y@);
                }
                report(distance, self.normalized, x.len(), y.len())
            },
            Err(error) => Err(error),
        }
    }
}

} // verus!

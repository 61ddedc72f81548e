use crate::distance::Distance;
use crate::edit_based::levenshtein::{
    lemma_levenshtein_bounded, levenshtein_distance, levenshtein_wagner_fisher,
};
use crate::error::SpatiumError;
use crate::normalize::{is_normalized, normalize};
use crate::types::element::Element;
use vstd::prelude::*;

verus! {

/// The Levenshtein distance by the Wagner-Fischer table, in time and memory
/// that grow with the product of the two lengths.
pub struct WagnerFisher {}

impl Default for WagnerFisher {
    fn default() -> Self {
        WagnerFisher {  }
    }
}

impl WagnerFisher {
    /// The Levenshtein distance between `x` and `y`.
    pub fn distance<T: Element>(&self, x: &[T], y: &[T]) -> (result: Result<usize, SpatiumError>)
        requires
            x@.len() < usize::MAX,
            y@.len() < usize::MAX,
        ensures
            result is Ok,
            result->Ok_0 == levenshtein_distance(x@, y@),
    {
        levenshtein_wagner_fisher(x, y)
    }

    /// The Levenshtein distance between `x` and `y`, divided by the length
    /// of the longer of the two.
    pub fn normalized_distance<T: Element>(&self, x: &[T], y: &[T]) -> (result: Result<
        Distance,
        SpatiumError,
    >)
        requires
            x@.len() < usize::MAX,
            y@.len() < usize::MAX,
        ensures
            result is Ok,
            is_normalized(
                result->Ok_0,
                levenshtein_distance(x@, y@),
                x@.len(),
                y@.len(),
            ),
            result->Ok_0.spec_numerator() <= result->Ok_0.spec_denominator(),
    {
        match levenshtein_wagner_fisher(x, y) {
            Ok(distance) => {
                proof {
                    lemma_levenshtein_bounded(x@, y@);
                }
                normalize(distance, x.len(), y.len())
            },
            Err(error) => Err(error),
        }
    }
}

} // verus!

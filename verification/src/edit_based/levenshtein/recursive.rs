use crate::distance::Distance;
use crate::edit_based::levenshtein::{
    lemma_levenshtein_bounded, levenshtein_distance, levenshtein_recursive,
};
use crate::error::SpatiumError;
use crate::normalize::{is_reported, report};
use crate::types::element::Element;
use vstd::prelude::*;

verus! {

/// The Levenshtein distance by the recursive definition taken literally.
///
/// The time it takes grows exponentially with the lengths of the inputs: it
/// is a reference to hold other strategies against, not for inputs of any
/// size.
pub struct Recursive {
    normalized: bool,
}

impl Default for Recursive {
    fn default() -> (algorithm: Self)
        ensures
            !algorithm.normalized(),
    {
        Recursive { normalized: false }
    }
}

impl Recursive {
    /// Whether `distance` reports the distance normalized.
    pub closed spec fn normalized(&self) -> bool {
        self.normalized
    }

    /// Sets whether the distance is reported normalized: divided by the
    /// length of the longer sequence.
    pub fn normalize_result(self, normalized: bool) -> (algorithm: Self)
        ensures
            algorithm.normalized() == normalized,
    {
        Recursive { normalized }
    }

    /// The Levenshtein distance between `x` and `y`, normalized where that
    /// was asked for.
    pub fn distance<T: Element>(&self, x: &[T], y: &[T]) -> (result: Result<Distance, SpatiumError>)
        requires
            x@.len() < usize::MAX,
            y@.len() < usize::MAX,
        ensures
            result is Ok,
            is_reported(
                result->Ok_0,
                levenshtein_distance(x@, y@),
                self.normalized(),
                x@.len(),
                y@.len(),
            ),
            self.normalized() ==> result->Ok_0.spec_numerator() <= result->Ok_0.spec_denominator(),
    {
        match levenshtein_recursive(x, y) {
            Ok(distance) => {
                proof {
                    lemma_levenshtein_bounded(x@, y@);
                }
                report(distance, self.normalized, x.len(), y.len())
            },
            Err(error) => Err(error),
        }
    }
}

} // verus!

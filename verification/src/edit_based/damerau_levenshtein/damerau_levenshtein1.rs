use crate::distance::Distance;
use crate::edit_based::damerau_levenshtein::{
    damerau_levenshtein, damerau_levenshtein_distance, lemma_damerau_levenshtein_bounded,
};
use crate::error::SpatiumError;
use crate::normalize::{is_reported, report};
use crate::types::element::Element;
use vstd::prelude::*;

verus! {

/// The Damerau-Levenshtein distance by a table of the distances between
/// prefixes, in time and memory that grow with the product of the two
/// lengths.
pub struct DamerauLevenshtein1 {
    normalized: bool,
}

impl Default for DamerauLevenshtein1 {
    fn default() -> (algorithm: Self)
        ensures
            !algorithm.normalized(),
    {
        DamerauLevenshtein1 { normalized: false }
    }
}

impl DamerauLevenshtein1 {
    /// Whether `distance` reports the distance normalized.
    pub closed spec fn normalized(&self) -> bool {
        self.normalized
    }

    /// Sets whether the distance is reported normalized: divided by the
    /// length of the longer sequence.
    pub fn normalize_result(self, normalized: bool) -> (algorithm: Self)
        ensures
            algorithm.normalized() == normalized,
    {
        DamerauLevenshtein1 { normalized }
    }

    /// The Damerau-Levenshtein distance between `x` and `y`, normalized
    /// where that was asked for.
    pub fn distance<T: Element>(&self, x: &[T], y: &[T]) -> (result: Result<Distance, SpatiumError>)
        requires
            x@.len() < usize::MAX,
            y@.len() < usize::MAX,
        ensures
            result is Ok,
            is_reported(
                result->Ok_0,
                damerau_levenshtein_distance(x@, y@),
                self.normalized(),
                x@.len(),
                y@.len(),
            ),
            self.normalized() ==> result->Ok_0.spec_numerator() <= result->Ok_0.spec_denominator(),
    {
        match damerau_levenshtein(x, y) {
            Ok(distance) => {
                proof {
                    lemma_damerau_levenshtein_bounded(x@, y@);
                }
                report(distance, self.normalized, x.len(), y.len())
            },
            Err(error) => Err(error),
        }
    }
}

} // verus!

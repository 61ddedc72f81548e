use crate::distance::IteratorsDistance;
use crate::edit_based::hamming::{different_lengths, hamming_distance, is_different_lengths};
use crate::error::SpatiumError;
use crate::types::iterator::SpatiumIterator;
use crate::types::element::Element;
use vstd::prelude::*;

verus! {

/// The Hamming distance on views that do not know their length: that the
/// lengths differ shows only when one view ends before the other.
pub struct Algorithm {}

impl Default for Algorithm {
    fn default() -> Self {
        Algorithm {  }
    }
}

impl<T: Element> IteratorsDistance<T> for Algorithm {
    open spec fn spec_distance(&self, x: Seq<T>, y: Seq<T>) -> Option<nat> {
        if x.len() == y.len() {
            Some(hamming_distance(x, y))
        } else {
            None
        }
    }

    fn iterators_distance<'a>(&self, x: SpatiumIterator<'a, T>, y: SpatiumIterator<'a, T>) -> (result:
        Result<usize, SpatiumError>)
        ensures
            x@.len() != y@.len() ==> result is Err && is_different_lengths(result->Err_0),
            x@.len() == y@.len() ==> result is Ok && result->Ok_0 == hamming_distance(x@, y@),
            x@.len() == y@.len() ==> result->Ok_0 <= x@.len(),
    {
        let mut x_rest = x;
        let mut y_rest = y;
        let ghost mut taken: nat = 0;
        let mut distance: usize = 0;

        loop
            invariant
                taken + x_rest@.len() == x@.len(),
                taken + y_rest@.len() == y@.len(),
                taken > 0 ==> x@.len() <= usize::MAX,
                distance <= taken,
                distance + hamming_distance(x_rest@, y_rest@)
                    == hamming_distance(x@, y@),
            ensures
                x@.len() == y@.len(),
                distance <= x@.len(),
                distance == hamming_distance(x@, y@),
            decreases x_rest@.len(),
        {
            match (x_rest.next(), y_rest.next()) {
                (None, None) => {
                    break ;
                },
                (Some(x_el), Some(y_el)) => {
                    if !x_el.same_as(y_el) {
                        distance += 1;
                    }
                    proof {
                        taken = taken + 1;
                    }
                },
                (None, Some(_)) | (Some(_), None) => {
                    return Err(different_lengths());
                },
            }
        }
        Ok(distance)
    }
}

} // verus!

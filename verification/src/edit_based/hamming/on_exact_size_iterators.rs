use crate::distance::ExactSizeIteratorsDistance;
use crate::edit_based::hamming::{different_lengths, hamming_distance, is_different_lengths};
use crate::error::SpatiumError;
use crate::types::exact_size_iterator::SpatiumExactSizeIterator;
use crate::types::element::Element;
use vstd::prelude::*;

verus! {

/// The Hamming distance on views that know their length: lengths that
/// differ are refused before any element is read.
pub struct Algorithm {}

impl Default for Algorithm {
    fn default() -> Self {
        Algorithm {  }
    }
}

impl<T: Element> ExactSizeIteratorsDistance<T> for Algorithm {
    open spec fn spec_distance(&self, x: Seq<T>, y: Seq<T>) -> Option<nat> {
        if x.len() == y.len() {
            Some(hamming_distance(x, y))
        } else {
            None
        }
    }

    fn exact_size_iterators_distance<'a>(
        &self,
        x: SpatiumExactSizeIterator<'a, T>,
        y: SpatiumExactSizeIterator<'a, T>,
    ) -> (result: Result<usize, SpatiumError>)
        ensures
            x.spec_len() != y.spec_len() ==> result is Err && is_different_lengths(result->Err_0),
            x.spec_len() == y.spec_len() ==> result is Ok && result->Ok_0 == hamming_distance(
                x@,
                y@,
            ),
            x.spec_len() == y.spec_len() ==> result->Ok_0 <= x@.len(),
    {
        if x.len() != y.len() {
            return Err(different_lengths());
        }
        let mut x_rest = x;
        let mut y_rest = y;
        let mut distance: usize = 0;
        loop
            invariant
                x@.len() <= usize::MAX,
                distance + x_rest@.len() <= x@.len(),
                distance + hamming_distance(x_rest@, y_rest@)
                    == hamming_distance(x@, y@),
            ensures
                distance <= x@.len(),
                distance == hamming_distance(x@, y@),
            decreases x_rest@.len(),
        {
            let x_el = match x_rest.next() {
                Some(element) => element,
                None => {
                    break ;
                },
            };
            let y_el = match y_rest.next() {
                Some(element) => element,
                None => {
                    break ;
                },
            };
            if !x_el.same_as(y_el) {
                distance += 1;
            }
        }
        Ok(distance)
    }
}

} // verus!

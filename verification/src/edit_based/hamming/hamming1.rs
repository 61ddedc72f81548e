use crate::edit_based::hamming::on_exact_size_iterators::Algorithm;
use vstd::prelude::*;

verus! {

/// The name under which the Hamming distance on views that know their
/// length is also known.
pub type Hamming1 = Algorithm;

} // verus!

//! Views that present a caller's container as an ordered stream of elements.

pub mod element;
pub mod exact_size_iterator;
pub mod iterator;
pub mod source;

//! The traits that a caller of the view-based distances needs in scope.

pub use crate::distance::ExactSizeIteratorsDistance;
pub use crate::distance::IteratorsDistance;

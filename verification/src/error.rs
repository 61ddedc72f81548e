use vstd::prelude::*;
use vstd::string::StringExecFns;

verus! {

/// A failure reported by a distance computation.
#[derive(Debug)]
pub enum SpatiumError {
    /// The arguments cannot be compared; the payload says why.
    ValueError(String),
    /// A nonzero distance cannot be normalized by a zero length.
    NormalizationError,
}

impl SpatiumError {
    /// The text that describes the error: the name of its kind, followed
    /// for a `ValueError` by a colon, a space and the reason it carries.
    pub open spec fn description(&self) -> Seq<char> {
        match self {
            SpatiumError::ValueError(reason) => "ValueError: "@ + reason@,
            SpatiumError::NormalizationError => "NormalizationError"@,
        }
    }

    /// Renders the error as text.
    pub fn to_string(&self) -> (text: String)
        ensures
            text@ == self.description(),
    {
        match self {
            SpatiumError::ValueError(reason) => {
                String::from_str("ValueError: ").concat(reason.as_str())
            },
            SpatiumError::NormalizationError => String::from_str("NormalizationError"),
        }
    }
}

} // verus!

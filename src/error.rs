use vstd::prelude::*;

verus! {

/// The ways in which a request to the library can be malformed.
#[derive(Clone, Copy, Debug, PartialEq, Eq, Structural)]
pub enum Error {
    /// A point does not have the dimension that the objective expects.
    DimensionMismatch,
    /// An axis has fewer than two samples, or its bounds are not increasing.
    InvalidDomain,
    /// No objective is registered under the selector.
    UnknownFunctionSelector,
}

} // verus!

//! Error values reported by garjan.

use vstd::prelude::*;

verus! {

/// Errors that can occur during environmental sound synthesis.
#[derive(Clone, Debug)]
#[non_exhaustive]
pub enum GarjanError {
    /// A synthesis parameter is out of valid range.
    InvalidParameter(String),
    /// A synthesis operation failed.
    SynthesisFailed(String),
    /// A numeric computation produced an invalid result.
    ComputationError(String),
}

} // verus!

//! The ways a run can fail.

use vstd::prelude::*;

verus! {

/// A failure that ends a run at once. Neither kind is retried.
#[derive(Clone, Copy, Debug, PartialEq, Eq, Structural)]
pub enum SimError {
    /// The weights handed to the distribution are empty, hold a zero, or
    /// their sum does not fit the weight type.
    InvalidWeights,
    /// The output stream could not be written to.
    OutputFailure,
}

impl SimError {
    /// The text shown for the error.
    pub open spec fn spec_message(self) -> Seq<char> {
        match self {
            SimError::InvalidWeights => "invalid weights"@,
            SimError::OutputFailure => "output failure"@,
        }
    }

    /// The text shown for the error.
    pub fn message(self) -> (s: &'static str)
        ensures
            s@ == self.spec_message(),
    {
        match self {
            SimError::InvalidWeights => "invalid weights",
            SimError::OutputFailure => "output failure",
        }
    }
}

} // verus!

//! The failures that leave the service.

use vstd::prelude::*;

verus! {

/// The one failure that a caller of the query seam can see.
#[derive(Debug, Clone, Copy, PartialEq, Eq, Structural)]
pub struct UniformExternalFailure;

impl UniformExternalFailure {
    /// Text shown to a caller.
    pub fn message(&self) -> (text: &'static str)
        ensures
            text@ == "private query failed"@,
    {
        "private query failed"
    }

    /// Rendering for logs.
    pub fn debug_text(&self) -> (text: &'static str)
        ensures
            text@ == "UniformExternalFailure"@,
    {
        "UniformExternalFailure"
    }
}

/// The private query service cannot do what it was asked.
#[derive(Debug, Clone, Copy, PartialEq, Eq, Structural)]
pub struct PrivateQueryUnavailable;

} // verus!

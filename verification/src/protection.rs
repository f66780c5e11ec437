//! Outcomes of authenticated protection.

use vstd::prelude::*;

verus! {

/// Verdict on an authenticated message.
#[derive(Debug, Clone, Copy, PartialEq, Eq, Structural)]
pub enum AuthenticationDecision {
    Accepted,
    Rejected,
}

/// The protection provider could not do its work.
#[derive(Debug, Clone, Copy, PartialEq, Eq, Structural)]
pub struct ProtectionUnavailable;

} // verus!

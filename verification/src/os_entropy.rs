//! Random bytes of the operating system.

use rand::rngs::OsRng;
use rand::TryRngCore;
use vstd::prelude::*;

verus! {

/// `rand::rngs::OsRng::try_fill_bytes`.
///
/// Nothing is claimed of the bytes, nor of when the generator is available: a
/// failure gives `false`, and the buffer keeps its length either way.
#[verifier::external_body]
pub(crate) fn fill_from_os(bytes: &mut [u8]) -> (filled: bool)
    ensures
        final(bytes)@.len() == old(bytes)@.len(),
{
    OsRng.try_fill_bytes(bytes).is_ok()
}

} // verus!

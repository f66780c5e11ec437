//! Clearing of key bytes.

use vstd::prelude::*;
use zeroize::Zeroize;

verus! {

/// Length of each long-lived runtime key.
pub const PRIVATE_RUNTIME_KEY_BYTES: usize = 32;

/// `zeroize::Zeroize::zeroize` on a key.
///
/// The claim is that every byte is zero afterwards. That the write is not
/// optimized away, which is what the crate is for, is not a claim about values
/// and is not stated.
#[verifier::external_body]
pub(crate) fn clear_key(key: &mut [u8; PRIVATE_RUNTIME_KEY_BYTES])
    ensures
        crate::bytes::is_zero(final(key)@),
{
    key.zeroize();
}

} // verus!

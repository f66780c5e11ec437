//! BLAKE2s-256 over one byte string.

use blake2::Blake2s256;
use blake2::Digest;
use vstd::prelude::*;

verus! {

pub const DIGEST_BYTES: usize = 32;

/// The BLAKE2s-256 digest of a byte string.
pub uninterp spec fn blake2s256(data: Seq<u8>) -> Seq<u8>;

/// `blake2::Blake2s256`: `new`, one `update` with the whole string, `finalize`.
///
/// The claim is that the 32 bytes that come out depend on the bytes that went
/// in alone. That two different strings give two different digests is not
/// claimed.
#[verifier::external_body]
pub(crate) fn blake2s256_digest(data: &[u8]) -> (digest: [u8; 32])
    ensures
        digest@ == blake2s256(data@),
{
    let mut hasher = Blake2s256::new();
    hasher.update(data);
    hasher.finalize().into()
}

} // verus!

//! The cryptographic hash that receipts commit with.

use sha2::Digest;
use sha2::Sha256;
use vstd::prelude::*;

verus! {

/// The SHA-256 digest of a byte string, as the `sha2` crate computes it.
///
/// The digest is a function of the input bytes alone. Nothing else is stated
/// of it here; in particular, that distinct inputs give distinct digests is
/// never assumed.
pub uninterp spec fn sha256(data: Seq<u8>) -> Seq<u8>;

/// Hashes `data` with `sha2::Sha256::digest`.
///
/// Not proved: that the 32 bytes handed back are the digest that [`sha256`]
/// names. The `sha2` crate feeds `data` to a fresh hasher and finalizes it,
/// so the result depends on the bytes of `data` and on nothing else. SHA-256
/// records the length of its message in a 64-bit count of bits; every slice
/// that fits in memory is shorter than the 2^61 bytes that this allows.
#[verifier::external_body]
pub(crate) fn sha256_digest(data: &[u8]) -> (digest: [u8; 32])
    ensures
        digest@ == sha256(data@),
{
    Sha256::digest(data).into()
}

} // verus!

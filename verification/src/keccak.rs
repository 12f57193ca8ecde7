//! The Keccak-256 digest, computed by the `tiny-keccak` crate.

use tiny_keccak::Hasher;
use tiny_keccak::Keccak;
use vstd::prelude::*;

verus! {

/// The Keccak-256 digest of a byte string: the 32 bytes that Ethereum calls
/// `keccak256`. Nothing is stated of its value beyond this name; the digest
/// the library computes is tied to it by `keccak256_digest`.
pub uninterp spec fn keccak256(data: Seq<u8>) -> Seq<u8>;

/// Trusted: a fresh `tiny_keccak::Keccak::v256()` hasher that absorbs `data`
/// in one `update` and is squeezed by `finalize` into 32 bytes. The state
/// starts empty, so the digest is a function of `data` alone; none of the
/// three calls can fail.
#[verifier::external_body]
pub(crate) fn keccak256_digest(data: &[u8]) -> (digest: [u8; 32])
    ensures
        digest@ == keccak256(data@),
{
    let mut hasher = Keccak::v256();
    hasher.update(data);
    let mut digest = [0u8; 32];
    hasher.finalize(&mut digest);
    digest
}

} // verus!

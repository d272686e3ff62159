//! The content-fingerprint primitive: SHA-256, supplied by an outside crate.

use sha2::Digest;
use vstd::prelude::*;

verus! {

/// The SHA-256 digest of a byte sequence. The digest is a fixed function of
/// the input bytes alone; its value is not spelled out here, only named.
pub uninterp spec fn sha256_of(bytes: Seq<u8>) -> Seq<u8>;

/// Relies on `sha2::Sha256` (through `Digest::digest`): the SHA-256 digest of
/// the input, a 32-byte value determined by the input bytes alone.
#[verifier::external_body]
pub(crate) fn sha256(bytes: &[u8]) -> (r: Vec<u8>)
    ensures
        r@ == sha256_of(bytes@),
        r@.len() == 32,
{
    sha2::Sha256::digest(bytes).to_vec()
}

} // verus!

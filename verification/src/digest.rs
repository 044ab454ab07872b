//! The SHA-2 digests that signatures are made over.

use sha2::{Digest, Sha256, Sha384, Sha512};
use vstd::prelude::*;

use crate::cli::HashMode;

verus! {

/// The digest of `data` under a hash: SHA-256, SHA-384 or SHA-512.
pub uninterp spec fn sha2_digest(hash: HashMode, data: Seq<u8>) -> Seq<u8>;

/// The length of a hash's output in bytes.
pub open spec fn spec_output_len(hash: HashMode) -> usize {
    match hash {
        HashMode::SHA256 => 32,
        HashMode::SHA384 => 48,
        HashMode::SHA512 => 64,
    }
}

/// The length of a hash's output in bytes.
#[verifier::when_used_as_spec(spec_output_len)]
pub fn output_len(hash: HashMode) -> (len: usize)
    ensures
        len == spec_output_len(hash),
{
    match hash {
        HashMode::SHA256 => 32,
        HashMode::SHA384 => 48,
        HashMode::SHA512 => 64,
    }
}

/// `sha2::Digest::digest` of the hasher that `hash` names: `Sha256`, `Sha384`
/// or `Sha512`. Their digests have 32, 48 and 64 bytes.
#[verifier::external_body]
fn sha2(hash: HashMode, data: &[u8]) -> (digest: Vec<u8>)
    ensures
        digest@ == sha2_digest(hash, data@),
        digest@.len() == spec_output_len(hash),
{
    match hash {
        HashMode::SHA256 => Sha256::digest(data).to_vec(),
        HashMode::SHA384 => Sha384::digest(data).to_vec(),
        HashMode::SHA512 => Sha512::digest(data).to_vec(),
    }
}

/// Computes the digest of `data` under a hash.
pub fn digest(hash: HashMode, data: &[u8]) -> (digest: Vec<u8>)
    ensures
        digest@ == sha2_digest(hash, data@),
        digest@.len() == spec_output_len(hash),
{
    sha2(hash, data)
}

} // verus!

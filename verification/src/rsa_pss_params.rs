//! The parameter block of an RSASSA-PSS algorithm identifier.

use const_oid::db::rfc5912::{ID_MGF_1, ID_SHA_256, ID_SHA_384, ID_SHA_512};
use der::asn1::AnyRef;
use der::{Decode, Encode};
use pkcs1::{RsaPssParams, TrailerField};
use vstd::prelude::*;

use crate::cli::HashMode;
use crate::encoding::{der_outcome, encoded_as, lift};
use crate::error::X509Error;

verus! {

pub const SALT_LEN_32: u8 = 32;

pub const SALT_LEN_48: u8 = 48;

pub const SALT_LEN_64: u8 = 64;

/// The DER encoding of the algorithm identifier of a hash: its object
/// identifier and no parameters. `None` where the encoder fails.
pub uninterp spec fn hash_algorithm_der(hash: HashMode) -> Option<Seq<u8>>;

/// The DER encoding of the RSASSA-PSS parameters that name `hash` as the hash,
/// MGF1 with the parameters `mgf_parameters` as the mask generation function,
/// `salt_len` as the salt length and the trailer field BC. `None` where the
/// encoder fails.
pub uninterp spec fn pss_params_der(hash: HashMode, mgf_parameters: Seq<u8>, salt_len: u8) -> Option<
    Seq<u8>,
>;

/// `der::Encode::to_vec` on the `spki::AlgorithmIdentifier` that holds the
/// object identifier of `hash` from RFC 5912 and no parameters. The value is
/// one of three, of thirteen bytes each, and the encoder fails on nothing but
/// a length that it cannot hold: it succeeds.
#[verifier::external_body]
fn encode_hash_algorithm(hash: HashMode) -> (r: Result<Vec<u8>, der::Error>)
    ensures
        der_outcome(r, hash_algorithm_der(hash)),
        r is Ok,
{
    let oid = match hash {
        HashMode::SHA256 => ID_SHA_256,
        HashMode::SHA384 => ID_SHA_384,
        HashMode::SHA512 => ID_SHA_512,
    };
    spki::AlgorithmIdentifier { oid, parameters: None }.to_vec()
}

/// `der::Encode::to_vec` on the `pkcs1::RsaPssParams` whose hash is the one
/// named by `hash`, whose mask generation function is MGF1 with the already
/// encoded parameters `mgf_parameters`, with the given salt length and the
/// trailer field BC. Where `mgf_parameters` is the encoded identifier of the
/// hash itself, it decodes, the value is of some fifty bytes, and the encoder
/// succeeds.
#[verifier::external_body]
fn encode_pss_params(hash: HashMode, mgf_parameters: &[u8], salt_len: u8) -> (r: Result<
    Vec<u8>,
    der::Error,
>)
    ensures
        der_outcome(r, pss_params_der(hash, mgf_parameters@, salt_len)),
        hash_algorithm_der(hash) == Some(mgf_parameters@) ==> r is Ok,
{
    let oid = match hash {
        HashMode::SHA256 => ID_SHA_256,
        HashMode::SHA384 => ID_SHA_384,
        HashMode::SHA512 => ID_SHA_512,
    };
    let mgf = AnyRef::from_der(mgf_parameters)?;
    RsaPssParams {
        hash: spki::AlgorithmIdentifier { oid, parameters: None },
        mask_gen: spki::AlgorithmIdentifier { oid: ID_MGF_1, parameters: Some(mgf) },
        salt_len,
        trailer_field: TrailerField::BC,
    }.to_vec()
}

/// The salt length that goes with a hash: the length of its output in bytes.
pub open spec fn spec_salt_len(hash: HashMode) -> u8 {
    match hash {
        HashMode::SHA256 => SALT_LEN_32,
        HashMode::SHA384 => SALT_LEN_48,
        HashMode::SHA512 => SALT_LEN_64,
    }
}

/// The salt length that goes with a hash: the length of its output in bytes.
#[verifier::when_used_as_spec(spec_salt_len)]
pub fn salt_len(hash: HashMode) -> (len: u8)
    ensures
        len == spec_salt_len(hash),
{
    match hash {
        HashMode::SHA256 => SALT_LEN_32,
        HashMode::SHA384 => SALT_LEN_48,
        HashMode::SHA512 => SALT_LEN_64,
    }
}

/// The RSASSA-PSS parameter block for a hash: the hash itself, MGF1 over the
/// same hash, the hash's output length as the salt length, trailer field BC.
pub open spec fn pss_parameters_spec(hash: HashMode) -> Option<Seq<u8>> {
    match hash_algorithm_der(hash) {
        Some(mgf_parameters) => pss_params_der(hash, mgf_parameters, spec_salt_len(hash)),
        None => None,
    }
}

/// Encodes the RSASSA-PSS parameter block for a hash. Each of the three
/// blocks can be encoded.
pub fn pss_parameters(hash: HashMode) -> (r: Result<Vec<u8>, X509Error>)
    ensures
        encoded_as(r, pss_parameters_spec(hash)),
        r is Ok,
{
    let mgf_parameters = match lift(encode_hash_algorithm(hash)) {
        Ok(bytes) => bytes,
        Err(e) => { return Err(e); },
    };
    lift(encode_pss_params(hash, mgf_parameters.as_slice(), salt_len(hash)))
}

} // verus!

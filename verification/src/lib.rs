//! Construction and signing of X.509 version 3 certificates.
//!
//! Names, validity periods, public keys and extensions are turned into the
//! fields of a to-be-signed certificate, which a [`signer::Signer`] then signs.
//! The data structures are plain values; every DER encoding is produced by the
//! RustCrypto `der`, `spki` and `x509-cert` crates.

use vstd::arithmetic::power::pow;
use vstd::prelude::*;

pub mod algorithm_identifier;
pub mod cert;
pub mod cli;
pub mod context;
pub mod digest;
pub mod ec_signer;
pub mod encoding;
pub mod error;
pub mod extensions;
pub mod name;
pub mod name_parser;
pub mod owned_name;
pub mod pem;
pub mod rsa_pss_params;
pub mod rsa_signer;
pub mod serial;
pub mod signer;
pub mod subject_public_key_info;
pub mod time;
pub mod validity;

use crate::context::Context;
use crate::error::X509Error;
use crate::serial::{lemma_strip_len, lemma_value_bound, strip_leading_zeroes, SerialNumber};

verus! {

/// The length of a serial number in bytes, before its leading zeroes go.
pub const SERIAL_LEN: usize = 32;

/// `rand::random`: a number from the thread's cryptographically secure
/// generator.
#[verifier::external_body]
fn random_u128() -> u128 {
    rand::random()
}

/// `u128::to_ne_bytes`: the bytes of a number in the machine's byte order.
#[verifier::external_body]
fn ne_bytes(x: u128) -> [u8; 16] {
    x.to_ne_bytes()
}

/// The bytes of `first` followed by those of `second`.
fn concat_words(first: &[u8; 16], second: &[u8; 16]) -> (bytes: Vec<u8>)
    ensures
        bytes@ == first@ + second@,
{
    let mut bytes: Vec<u8> = Vec::with_capacity(SERIAL_LEN);
    let mut i: usize = 0;
    while i < 16
        invariant
            i <= 16,
            bytes@ == first@.take(i as int),
        decreases 16 - i,
    {
        bytes.push(first[i]);
        assert(bytes@ =~= first@.take(i + 1));
        i = i + 1;
    }
    assert(first@.take(16) == first@);
    let mut j: usize = 0;
    while j < 16
        invariant
            j <= 16,
            bytes@ == first@ + second@.take(j as int),
        decreases 16 - j,
    {
        bytes.push(second[j]);
        assert(bytes@ =~= first@ + second@.take(j + 1));
        j = j + 1;
    }
    assert(second@.take(16) == second@);
    bytes
}

/// A fresh serial number of 256 random bits. It is never negative: it is
/// kept as the big-endian bytes of an unsigned number, without leading zeroes.
pub fn random_serial<'a>(context: &'a Context) -> (r: Result<SerialNumber<'a>, X509Error>)
    ensures
        r is Ok,
        0 < r.unwrap().magnitude().len() <= SERIAL_LEN,
        r.unwrap().value() < pow(256, SERIAL_LEN as nat),
        exists|drawn: Seq<u8>|
            drawn.len() == SERIAL_LEN && r.unwrap().magnitude() == strip_leading_zeroes(drawn),
{
    let serial_1 = random_u128();
    let serial_2 = random_u128();
    let bytes = concat_words(&ne_bytes(serial_1), &ne_bytes(serial_2));
    proof {
        lemma_strip_len(bytes@);
        lemma_value_bound(bytes@);
    }
    let r = SerialNumber::from_bytes(context, bytes.as_slice());
    assert(r is Ok);
    assert(bytes@.len() == SERIAL_LEN && r.unwrap().magnitude() == strip_leading_zeroes(bytes@));
    r
}

} // verus!

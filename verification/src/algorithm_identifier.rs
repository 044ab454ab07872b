//! The signature algorithms that certificates of this library are signed
//! with, and their algorithm identifiers.

use const_oid::db::rfc5912::{
    ECDSA_WITH_SHA_256, ECDSA_WITH_SHA_384, ECDSA_WITH_SHA_512, ID_RSASSA_PSS,
    SHA_256_WITH_RSA_ENCRYPTION, SHA_384_WITH_RSA_ENCRYPTION, SHA_512_WITH_RSA_ENCRYPTION,
};
use der::asn1::AnyRef;
use der::{Decode, Encode};
use vstd::prelude::*;

use crate::cli::HashMode;
use crate::encoding::{der_outcome, encoded_as, lift};
use crate::error::X509Error;
use crate::rsa_pss_params::{pss_parameters, pss_parameters_spec};

verus! {

/// The object identifier of a signature algorithm.
#[derive(Debug, Clone, Copy, PartialEq, Eq, Structural)]
pub enum SignatureOid {
    /// ecdsa-with-SHA256, 1.2.840.10045.4.3.2.
    EcdsaWithSha256,
    /// ecdsa-with-SHA384, 1.2.840.10045.4.3.3.
    EcdsaWithSha384,
    /// ecdsa-with-SHA512, 1.2.840.10045.4.3.4.
    EcdsaWithSha512,
    /// sha256WithRSAEncryption, 1.2.840.113549.1.1.11.
    Sha256WithRsaEncryption,
    /// sha384WithRSAEncryption, 1.2.840.113549.1.1.12.
    Sha384WithRsaEncryption,
    /// sha512WithRSAEncryption, 1.2.840.113549.1.1.13.
    Sha512WithRsaEncryption,
    /// id-RSASSA-PSS, 1.2.840.113549.1.1.10.
    RsassaPss,
}

/// How a signature is made, the hash aside.
#[derive(Debug, Clone, Copy, PartialEq, Eq, Structural)]
pub enum SignatureScheme {
    /// ECDSA.
    Ecdsa,
    /// RSASSA-PKCS1-v1_5.
    RsaPkcs1v15,
    /// RSASSA-PSS with MGF1 over the same hash and a salt as long as the
    /// hash's output.
    RsaPss,
}

/// An algorithm identifier: an object identifier and, for some algorithms,
/// DER-encoded parameters.
#[derive(Debug)]
pub struct AlgorithmIdentifier {
    pub oid: SignatureOid,
    pub parameters: Option<Vec<u8>>,
}

/// What an [`AlgorithmIdentifier`] stands for.
pub struct AlgorithmIdentifierView {
    pub oid: SignatureOid,
    pub parameters: Option<Seq<u8>>,
}

impl View for AlgorithmIdentifier {
    type V = AlgorithmIdentifierView;

    open spec fn view(&self) -> AlgorithmIdentifierView {
        AlgorithmIdentifierView {
            oid: self.oid,
            parameters: match self.parameters {
                Some(p) => Some(p@),
                None => None,
            },
        }
    }
}

/// The DER encoding of the algorithm identifier with the given object
/// identifier and the given, already encoded, parameters. `None` where the
/// encoder fails.
pub uninterp spec fn algorithm_identifier_der(oid: SignatureOid, parameters: Option<Seq<u8>>) -> Option<
    Seq<u8>,
>;

/// `der::Encode::to_vec` on the `spki::AlgorithmIdentifier` that holds the
/// object identifier from RFC 5912 which `oid` names and, as its parameters,
/// the value that `parameters` is the DER encoding of.
#[verifier::external_body]
fn encode_algorithm_identifier(oid: SignatureOid, parameters: Option<&[u8]>) -> (r: Result<
    Vec<u8>,
    der::Error,
>)
    ensures
        der_outcome(
            r,
            algorithm_identifier_der(
                oid,
                match parameters {
                    Some(p) => Some(p@),
                    None => None,
                },
            ),
        ),
{
    let oid = match oid {
        SignatureOid::EcdsaWithSha256 => ECDSA_WITH_SHA_256,
        SignatureOid::EcdsaWithSha384 => ECDSA_WITH_SHA_384,
        SignatureOid::EcdsaWithSha512 => ECDSA_WITH_SHA_512,
        SignatureOid::Sha256WithRsaEncryption => SHA_256_WITH_RSA_ENCRYPTION,
        SignatureOid::Sha384WithRsaEncryption => SHA_384_WITH_RSA_ENCRYPTION,
        SignatureOid::Sha512WithRsaEncryption => SHA_512_WITH_RSA_ENCRYPTION,
        SignatureOid::RsassaPss => ID_RSASSA_PSS,
    };
    let parameters = parameters.map(AnyRef::from_der).transpose()?;
    spki::AlgorithmIdentifier { oid, parameters }.to_vec()
}

impl AlgorithmIdentifierView {
    /// The DER encoding of the identifier.
    pub open spec fn der(self) -> Option<Seq<u8>> {
        algorithm_identifier_der(self.oid, self.parameters)
    }
}

impl Clone for AlgorithmIdentifier {
    fn clone(&self) -> (copy: Self)
        ensures
            copy@ == self@,
    {
        let parameters = match &self.parameters {
            Some(p) => {
                let q = p.clone();
                assert(q@ =~= p@);
                Some(q)
            },
            None => None,
        };
        AlgorithmIdentifier { oid: self.oid, parameters }
    }
}

impl AlgorithmIdentifier {
    /// Encodes the identifier as DER.
    pub fn to_der(&self) -> (r: Result<Vec<u8>, X509Error>)
        ensures
            encoded_as(r, self@.der()),
    {
        let parameters: Option<&[u8]> = match &self.parameters {
            Some(p) => Some(p.as_slice()),
            None => None,
        };
        lift(encode_algorithm_identifier(self.oid, parameters))
    }
}

/// The object identifier of the signature algorithm that a scheme and a hash
/// make up.
pub open spec fn spec_signature_oid(scheme: SignatureScheme, hash: HashMode) -> SignatureOid {
    match (scheme, hash) {
        (SignatureScheme::Ecdsa, HashMode::SHA256) => SignatureOid::EcdsaWithSha256,
        (SignatureScheme::Ecdsa, HashMode::SHA384) => SignatureOid::EcdsaWithSha384,
        (SignatureScheme::Ecdsa, HashMode::SHA512) => SignatureOid::EcdsaWithSha512,
        (SignatureScheme::RsaPkcs1v15, HashMode::SHA256) => SignatureOid::Sha256WithRsaEncryption,
        (SignatureScheme::RsaPkcs1v15, HashMode::SHA384) => SignatureOid::Sha384WithRsaEncryption,
        (SignatureScheme::RsaPkcs1v15, HashMode::SHA512) => SignatureOid::Sha512WithRsaEncryption,
        (SignatureScheme::RsaPss, _) => SignatureOid::RsassaPss,
    }
}

/// The object identifier of the signature algorithm that a scheme and a hash
/// make up.
#[verifier::when_used_as_spec(spec_signature_oid)]
pub fn signature_oid(scheme: SignatureScheme, hash: HashMode) -> (oid: SignatureOid)
    ensures
        oid == spec_signature_oid(scheme, hash),
{
    match scheme {
        SignatureScheme::Ecdsa => match hash {
            HashMode::SHA256 => SignatureOid::EcdsaWithSha256,
            HashMode::SHA384 => SignatureOid::EcdsaWithSha384,
            HashMode::SHA512 => SignatureOid::EcdsaWithSha512,
        },
        SignatureScheme::RsaPkcs1v15 => match hash {
            HashMode::SHA256 => SignatureOid::Sha256WithRsaEncryption,
            HashMode::SHA384 => SignatureOid::Sha384WithRsaEncryption,
            HashMode::SHA512 => SignatureOid::Sha512WithRsaEncryption,
        },
        SignatureScheme::RsaPss => SignatureOid::RsassaPss,
    }
}

/// The registered identifier of a signature algorithm: the object identifier
/// alone for ECDSA and RSASSA-PKCS1-v1_5, the object identifier id-RSASSA-PSS
/// with the parameter block of the hash for RSASSA-PSS. `None` where that
/// block cannot be encoded.
pub open spec fn registered(scheme: SignatureScheme, hash: HashMode) -> Option<
    AlgorithmIdentifierView,
> {
    match scheme {
        SignatureScheme::RsaPss => match pss_parameters_spec(hash) {
            Some(p) => Some(
                AlgorithmIdentifierView { oid: SignatureOid::RsassaPss, parameters: Some(p) },
            ),
            None => None,
        },
        _ => Some(
            AlgorithmIdentifierView { oid: spec_signature_oid(scheme, hash), parameters: None },
        ),
    }
}

/// An identifier `r` is the registered one of `scheme` and `hash`, or an
/// encoding error where there is none.
pub open spec fn is_registered(
    r: Result<AlgorithmIdentifier, X509Error>,
    scheme: SignatureScheme,
    hash: HashMode,
) -> bool {
    match r {
        Ok(id) => registered(scheme, hash) == Some(id@),
        Err(e) => registered(scheme, hash) is None && e is DERError,
    }
}

/// The identifier of the signature algorithm that a scheme and a hash make
/// up. Every one of the nine is registered.
pub fn identifier(scheme: SignatureScheme, hash: HashMode) -> (r: Result<
    AlgorithmIdentifier,
    X509Error,
>)
    ensures
        is_registered(r, scheme, hash),
        r is Ok,
{
    match scheme {
        SignatureScheme::RsaPss => {
            match pss_parameters(hash) {
                Ok(p) => Ok(AlgorithmIdentifier { oid: SignatureOid::RsassaPss, parameters: Some(p) }),
                Err(e) => Err(e),
            }
        },
        _ => Ok(AlgorithmIdentifier { oid: signature_oid(scheme, hash), parameters: None }),
    }
}

/// ECDSA with SHA-256.
pub fn ecdsa_with_sha256() -> (id: AlgorithmIdentifier)
    ensures
        registered(SignatureScheme::Ecdsa, HashMode::SHA256) == Some(id@),
{
    AlgorithmIdentifier { oid: SignatureOid::EcdsaWithSha256, parameters: None }
}

/// ECDSA with SHA-384.
pub fn ecdsa_with_sha384() -> (id: AlgorithmIdentifier)
    ensures
        registered(SignatureScheme::Ecdsa, HashMode::SHA384) == Some(id@),
{
    AlgorithmIdentifier { oid: SignatureOid::EcdsaWithSha384, parameters: None }
}

/// ECDSA with SHA-512.
pub fn ecdsa_with_sha512() -> (id: AlgorithmIdentifier)
    ensures
        registered(SignatureScheme::Ecdsa, HashMode::SHA512) == Some(id@),
{
    AlgorithmIdentifier { oid: SignatureOid::EcdsaWithSha512, parameters: None }
}

/// RSASSA-PKCS1-v1_5 with SHA-256.
pub fn rsa_ssa_pkcs1_v15_sha256() -> (id: AlgorithmIdentifier)
    ensures
        registered(SignatureScheme::RsaPkcs1v15, HashMode::SHA256) == Some(id@),
{
    AlgorithmIdentifier { oid: SignatureOid::Sha256WithRsaEncryption, parameters: None }
}

/// RSASSA-PKCS1-v1_5 with SHA-384.
pub fn rsa_ssa_pkcs1_v15_sha384() -> (id: AlgorithmIdentifier)
    ensures
        registered(SignatureScheme::RsaPkcs1v15, HashMode::SHA384) == Some(id@),
{
    AlgorithmIdentifier { oid: SignatureOid::Sha384WithRsaEncryption, parameters: None }
}

/// RSASSA-PKCS1-v1_5 with SHA-512.
pub fn rsa_ssa_pkcs1_v15_sha512() -> (id: AlgorithmIdentifier)
    ensures
        registered(SignatureScheme::RsaPkcs1v15, HashMode::SHA512) == Some(id@),
{
    AlgorithmIdentifier { oid: SignatureOid::Sha512WithRsaEncryption, parameters: None }
}

/// RSASSA-PSS with SHA-256, MGF1 over SHA-256 and a salt of 32 bytes.
pub fn rsa_ssa_pss_sha256() -> (r: Result<AlgorithmIdentifier, X509Error>)
    ensures
        is_registered(r, SignatureScheme::RsaPss, HashMode::SHA256),
        r is Ok,
{
    identifier(SignatureScheme::RsaPss, HashMode::SHA256)
}

/// RSASSA-PSS with SHA-384, MGF1 over SHA-384 and a salt of 48 bytes.
pub fn rsa_ssa_pss_sha384() -> (r: Result<AlgorithmIdentifier, X509Error>)
    ensures
        is_registered(r, SignatureScheme::RsaPss, HashMode::SHA384),
        r is Ok,
{
    identifier(SignatureScheme::RsaPss, HashMode::SHA384)
}

/// RSASSA-PSS with SHA-512, MGF1 over SHA-512 and a salt of 64 bytes.
pub fn rsa_ssa_pss_sha512() -> (r: Result<AlgorithmIdentifier, X509Error>)
    ensures
        is_registered(r, SignatureScheme::RsaPss, HashMode::SHA512),
        r is Ok,
{
    identifier(SignatureScheme::RsaPss, HashMode::SHA512)
}

/// Identifiers that stand for the same algorithm and parameters have the same
/// encoding.
pub proof fn lemma_same_identifier_same_encoding(a: AlgorithmIdentifier, b: AlgorithmIdentifier)
    requires
        a@.oid == b@.oid,
        a@.parameters == b@.parameters,
    ensures
        a@.der() == b@.der(),
{
}

} // verus!

//! Signers that hold an ECDSA key on the curve P-256 or P-384.

use p256::ecdsa::signature::Signer as _;
use pkcs8::{DecodePrivateKey, EncodePrivateKey, EncodePublicKey};
use rand_core::OsRng;
use vstd::prelude::*;

use crate::algorithm_identifier::{
    identifier, registered, AlgorithmIdentifier, AlgorithmIdentifierView, SignatureOid,
    SignatureScheme,
};
use crate::cli::{EcdsaCurve, GetSignerError, HashMode, KeyInput, Obtained};
use crate::context::Context;
use crate::error::SignerError;
use crate::signer::Signer;
use crate::subject_public_key_info::{spki_key_bits, SubjectPublicKeyInfo};

verus! {

/// The PKCS#8 document of the private key on `curve` that `pem` holds as the
/// PEM text of such a document. `None` where `pem` holds no key on that curve.
pub uninterp spec fn key_of_pem(curve: EcdsaCurve, pem: Seq<char>) -> Option<Seq<u8>>;

/// The DER-encoded SubjectPublicKeyInfo of the public key that belongs to the
/// private key on `curve` which `key` holds as a PKCS#8 document. `None`
/// where `key` holds no such key or the encoder fails.
pub uninterp spec fn ec_public_key(curve: EcdsaCurve, key: Seq<u8>) -> Option<Seq<u8>>;

/// The DER-encoded ECDSA signature over `data` by the private key on `curve`
/// which `key` holds as a PKCS#8 document, over the digest of the curve's
/// hash, SHA-256 for P-256 and SHA-384 for P-384, with the nonce of RFC 6979.
/// `None` where `key` holds no such key or signing fails.
pub uninterp spec fn ec_signature(curve: EcdsaCurve, key: Seq<u8>, data: Seq<u8>) -> Option<
    Seq<u8>,
>;

/// An outcome `r` holds exactly the expected bytes, or it failed where none
/// are expected.
pub open spec fn key_outcome(r: Result<Vec<u8>, SignerError>, expected: Option<Seq<u8>>) -> bool {
    match r {
        Ok(bytes) => expected == Some(bytes@),
        Err(_) => expected is None,
    }
}

/// `ecdsa::SigningKey::random` for the curve, with the operating system's
/// random number generator, and of the fresh key `to_pkcs8_der`, whose
/// failure, the only one there is, comes as `Pkcs8`.
#[verifier::external_body]
fn generate(curve: EcdsaCurve) -> (r: Result<Vec<u8>, SignerError>)
    ensures
        r matches Err(e) ==> e is Pkcs8,
{
    match curve {
        EcdsaCurve::P256 => p256::ecdsa::SigningKey::random(&mut OsRng).to_pkcs8_der(),
        EcdsaCurve::P384 => p384::ecdsa::SigningKey::random(&mut OsRng).to_pkcs8_der(),
    }.map(|doc| doc.as_bytes().to_vec()).map_err(SignerError::Pkcs8)
}

/// `pkcs8::DecodePrivateKey::from_pkcs8_pem` for a key on the curve, and of
/// that key `to_pkcs8_der`.
#[verifier::external_body]
fn decode_pem(curve: EcdsaCurve, pem: &str) -> (r: Result<Vec<u8>, SignerError>)
    ensures
        key_outcome(r, key_of_pem(curve, pem@)),
{
    match curve {
        EcdsaCurve::P256 => p256::ecdsa::SigningKey::from_pkcs8_pem(pem).and_then(
            |key| key.to_pkcs8_der(),
        ),
        EcdsaCurve::P384 => p384::ecdsa::SigningKey::from_pkcs8_pem(pem).and_then(
            |key| key.to_pkcs8_der(),
        ),
    }.map(|doc| doc.as_bytes().to_vec()).map_err(SignerError::Pkcs8)
}

/// `spki::EncodePublicKey::to_public_key_der` on the `verifying_key` of the
/// key on the curve that `from_pkcs8_der` decodes from `key`. A failure to
/// decode comes as `Pkcs8`, one to encode as `Spki`.
#[verifier::external_body]
fn encode_public_key(curve: EcdsaCurve, key: &[u8]) -> (r: Result<Vec<u8>, SignerError>)
    ensures
        key_outcome(r, ec_public_key(curve, key@)),
        r matches Err(e) ==> e is Pkcs8 || e is Spki,
{
    match curve {
        EcdsaCurve::P256 => p256::ecdsa::SigningKey::from_pkcs8_der(key).map_err(
            SignerError::Pkcs8,
        )?.verifying_key().to_public_key_der(),
        EcdsaCurve::P384 => p384::ecdsa::SigningKey::from_pkcs8_der(key).map_err(
            SignerError::Pkcs8,
        )?.verifying_key().to_public_key_der(),
    }.map(|doc| doc.as_bytes().to_vec()).map_err(SignerError::Spki)
}

/// `signature::Signer::try_sign` by the key on the curve that
/// `from_pkcs8_der` decodes from `key`, and of the signature `to_der`. A key
/// on P-256 signs the SHA-256 digest of `data`, a key on P-384 the SHA-384
/// digest, both with the nonce that RFC 6979 derives from key and digest.
#[verifier::external_body]
fn sign_with(curve: EcdsaCurve, key: &[u8], data: &[u8]) -> (r: Result<Vec<u8>, SignerError>)
    ensures
        key_outcome(r, ec_signature(curve, key@, data@)),
{
    match curve {
        EcdsaCurve::P256 => p256::ecdsa::SigningKey::from_pkcs8_der(key).map_err(
            SignerError::Pkcs8,
        )?.try_sign(data).map(|s: p256::ecdsa::Signature| s.to_der().as_bytes().to_vec()),
        EcdsaCurve::P384 => p384::ecdsa::SigningKey::from_pkcs8_der(key).map_err(
            SignerError::Pkcs8,
        )?.try_sign(data).map(|s: p384::ecdsa::Signature| s.to_der().as_bytes().to_vec()),
    }.map_err(|e| SignerError::Other(e.to_string()))
}

/// An ECDSA key on some curve.
pub trait EcKey {
    /// The private key as a PKCS#8 document.
    spec fn key(&self) -> Seq<u8>;

    /// The signature that the key makes over `data`, DER encoded. `None`
    /// where signing fails.
    spec fn signature(&self, data: Seq<u8>) -> Option<Seq<u8>>;

    /// The public key as a DER-encoded SubjectPublicKeyInfo. `None` where it
    /// cannot be encoded.
    spec fn public_key(&self) -> Option<Seq<u8>>;

    /// The private key as a PKCS#8 document: what the key's file holds.
    fn to_pkcs8_der(&self) -> (der: Vec<u8>)
        ensures
            der@ == self.key(),
    ;

    /// Signs `data`. The signature is DER encoded.
    fn sign(&self, data: &[u8]) -> (r: Result<Vec<u8>, SignerError>)
        ensures
            key_outcome(r, self.signature(data@)),
    ;

    /// The public key as a DER-encoded SubjectPublicKeyInfo.
    fn pubkey_bytes(&self) -> (r: Result<Vec<u8>, SignerError>)
        ensures
            key_outcome(r, self.public_key()),
    ;
}

/// A copy of bytes.
fn copy_bytes(bytes: &Vec<u8>) -> (copy: Vec<u8>)
    ensures
        copy@ == bytes@,
{
    let copy = bytes.clone();
    assert(copy@ =~= bytes@);
    copy
}

/// A P-256 key. It signs with SHA-256.
pub struct P256Signer {
    key: Vec<u8>,
}

impl P256Signer {
    /// A fresh key, kept as the PKCS#8 document that the key generator
    /// hands out, once the public key has been read from that document: a
    /// signer that is handed out has a public key. A failure to write or to
    /// read the document comes as `Pkcs8`, one to encode the public key as
    /// `Spki`.
    pub fn random() -> (r: Result<P256Signer, SignerError>)
        ensures
            r matches Ok(signer) ==> signer.public_key() is Some,
            r matches Err(e) ==> e is Pkcs8 || e is Spki,
    {
        let key = match generate(EcdsaCurve::P256) {
            Ok(key) => key,
            Err(e) => { return Err(e); },
        };
        match encode_public_key(EcdsaCurve::P256, key.as_slice()) {
            Ok(_) => Ok(P256Signer { key }),
            Err(e) => Err(e),
        }
    }

    /// The key that `pem` holds as the PEM text of a PKCS#8 document.
    pub fn from_pkcs8_pem(pem: &str) -> (r: Result<P256Signer, SignerError>)
        ensures
            match r {
                Ok(signer) => key_of_pem(EcdsaCurve::P256, pem@) == Some(signer.key()),
                Err(_) => key_of_pem(EcdsaCurve::P256, pem@) is None,
            },
    {
        match decode_pem(EcdsaCurve::P256, pem) {
            Ok(key) => Ok(P256Signer { key }),
            Err(e) => Err(e),
        }
    }
}

impl EcKey for P256Signer {
    closed spec fn key(&self) -> Seq<u8> {
        self.key@
    }

    open spec fn signature(&self, data: Seq<u8>) -> Option<Seq<u8>> {
        ec_signature(EcdsaCurve::P256, self.key(), data)
    }

    open spec fn public_key(&self) -> Option<Seq<u8>> {
        ec_public_key(EcdsaCurve::P256, self.key())
    }

    fn to_pkcs8_der(&self) -> (der: Vec<u8>) {
        copy_bytes(&self.key)
    }

    fn sign(&self, data: &[u8]) -> (r: Result<Vec<u8>, SignerError>) {
        sign_with(EcdsaCurve::P256, self.key.as_slice(), data)
    }

    fn pubkey_bytes(&self) -> (r: Result<Vec<u8>, SignerError>) {
        encode_public_key(EcdsaCurve::P256, self.key.as_slice())
    }
}

/// A P-384 key. It signs with SHA-384.
pub struct P384Signer {
    key: Vec<u8>,
}

impl P384Signer {
    /// A fresh key, kept as the PKCS#8 document that the key generator
    /// hands out, once the public key has been read from that document: a
    /// signer that is handed out has a public key. A failure to write or to
    /// read the document comes as `Pkcs8`, one to encode the public key as
    /// `Spki`.
    pub fn random() -> (r: Result<P384Signer, SignerError>)
        ensures
            r matches Ok(signer) ==> signer.public_key() is Some,
            r matches Err(e) ==> e is Pkcs8 || e is Spki,
    {
        let key = match generate(EcdsaCurve::P384) {
            Ok(key) => key,
            Err(e) => { return Err(e); },
        };
        match encode_public_key(EcdsaCurve::P384, key.as_slice()) {
            Ok(_) => Ok(P384Signer { key }),
            Err(e) => Err(e),
        }
    }

    /// The key that `pem` holds as the PEM text of a PKCS#8 document.
    pub fn from_pkcs8_pem(pem: &str) -> (r: Result<P384Signer, SignerError>)
        ensures
            match r {
                Ok(signer) => key_of_pem(EcdsaCurve::P384, pem@) == Some(signer.key()),
                Err(_) => key_of_pem(EcdsaCurve::P384, pem@) is None,
            },
    {
        match decode_pem(EcdsaCurve::P384, pem) {
            Ok(key) => Ok(P384Signer { key }),
            Err(e) => Err(e),
        }
    }
}

impl EcKey for P384Signer {
    closed spec fn key(&self) -> Seq<u8> {
        self.key@
    }

    open spec fn signature(&self, data: Seq<u8>) -> Option<Seq<u8>> {
        ec_signature(EcdsaCurve::P384, self.key(), data)
    }

    open spec fn public_key(&self) -> Option<Seq<u8>> {
        ec_public_key(EcdsaCurve::P384, self.key())
    }

    fn to_pkcs8_der(&self) -> (der: Vec<u8>) {
        copy_bytes(&self.key)
    }

    fn sign(&self, data: &[u8]) -> (r: Result<Vec<u8>, SignerError>) {
        sign_with(EcdsaCurve::P384, self.key.as_slice(), data)
    }

    fn pubkey_bytes(&self) -> (r: Result<Vec<u8>, SignerError>) {
        encode_public_key(EcdsaCurve::P384, self.key.as_slice())
    }
}

/// A key on one of the curves.
pub enum EcKeyPair {
    P256(P256Signer),
    P384(P384Signer),
}

impl EcKeyPair {
    /// The curve that the key lies on.
    pub open spec fn curve(&self) -> EcdsaCurve {
        match self {
            EcKeyPair::P256(_) => EcdsaCurve::P256,
            EcKeyPair::P384(_) => EcdsaCurve::P384,
        }
    }
}

impl EcKey for EcKeyPair {
    open spec fn key(&self) -> Seq<u8> {
        match self {
            EcKeyPair::P256(k) => k.key(),
            EcKeyPair::P384(k) => k.key(),
        }
    }

    open spec fn signature(&self, data: Seq<u8>) -> Option<Seq<u8>> {
        match self {
            EcKeyPair::P256(k) => k.signature(data),
            EcKeyPair::P384(k) => k.signature(data),
        }
    }

    open spec fn public_key(&self) -> Option<Seq<u8>> {
        match self {
            EcKeyPair::P256(k) => k.public_key(),
            EcKeyPair::P384(k) => k.public_key(),
        }
    }

    fn to_pkcs8_der(&self) -> (der: Vec<u8>) {
        match self {
            EcKeyPair::P256(k) => k.to_pkcs8_der(),
            EcKeyPair::P384(k) => k.to_pkcs8_der(),
        }
    }

    fn sign(&self, data: &[u8]) -> (r: Result<Vec<u8>, SignerError>) {
        match self {
            EcKeyPair::P256(k) => k.sign(data),
            EcKeyPair::P384(k) => k.sign(data),
        }
    }

    fn pubkey_bytes(&self) -> (r: Result<Vec<u8>, SignerError>) {
        match self {
            EcKeyPair::P256(k) => k.pubkey_bytes(),
            EcKeyPair::P384(k) => k.pubkey_bytes(),
        }
    }
}

/// The hash that goes with a curve: SHA-256 with P-256, SHA-384 with P-384.
pub open spec fn spec_curve_hash(curve: EcdsaCurve) -> HashMode {
    match curve {
        EcdsaCurve::P256 => HashMode::SHA256,
        EcdsaCurve::P384 => HashMode::SHA384,
    }
}

/// The hash that goes with a curve.
#[verifier::when_used_as_spec(spec_curve_hash)]
pub fn curve_hash(curve: EcdsaCurve) -> (hash: HashMode)
    ensures
        hash == spec_curve_hash(curve),
{
    match curve {
        EcdsaCurve::P256 => HashMode::SHA256,
        EcdsaCurve::P384 => HashMode::SHA384,
    }
}

/// A signer with an ECDSA key.
pub struct EcSigner {
    curve: EcdsaCurve,
    inner: EcKeyPair,
}

impl EcSigner {
    #[verifier::type_invariant]
    spec fn on_its_curve(self) -> bool {
        self.inner.curve() == self.curve
    }

    /// The curve of the signer's key.
    pub closed spec fn curve(&self) -> EcdsaCurve {
        self.curve
    }

    /// The signer's key.
    pub closed spec fn key_pair(&self) -> EcKeyPair {
        self.inner
    }

    /// The signer's private key as a PKCS#8 document.
    pub fn to_pkcs8_der(&self) -> (der: Vec<u8>)
        ensures
            der@ == self.key_pair().key(),
    {
        self.inner.to_pkcs8_der()
    }
}

impl Signer for EcSigner {
    open spec fn scheme(&self) -> SignatureScheme {
        SignatureScheme::Ecdsa
    }

    open spec fn hash(&self) -> HashMode {
        spec_curve_hash(self.curve())
    }

    /// The one signature of the signer's key over `data`.
    open spec fn signs(&self, data: Seq<u8>, signature: Seq<u8>) -> bool {
        self.key_pair().signature(data) == Some(signature)
    }

    open spec fn has_public_key(&self, encoding: Seq<u8>) -> bool {
        self.key_pair().public_key() == Some(encoding)
    }

    fn sign(&self, data: &[u8]) -> (r: Result<Vec<u8>, SignerError>)
        ensures
            key_outcome(r, self.key_pair().signature(data@)),
    {
        self.inner.sign(data)
    }

    fn signature_algorithm(&self) -> (r: Result<AlgorithmIdentifier, SignerError>)
        ensures
            r is Ok,
    {
        match identifier(SignatureScheme::Ecdsa, curve_hash(self.curve)) {
            Ok(id) => Ok(id),
            Err(e) => Err(SignerError::X509Util(Box::new(e))),
        }
    }

    fn subject_public_key_info<'b>(&self, context: &'b Context) -> (r: Result<
        SubjectPublicKeyInfo<'b>,
        SignerError,
    >)
        ensures
            r is Ok <==> (self.key_pair().public_key() matches Some(der) && spki_key_bits(der)
                is Some),
            r is Ok ==> Some(r.unwrap().encoding()) == self.key_pair().public_key(),
    {
        let data = match self.inner.pubkey_bytes() {
            Ok(data) => data,
            Err(e) => { return Err(e); },
        };
        match SubjectPublicKeyInfo::from_der(context, data.as_slice()) {
            Ok(info) => Ok(info),
            Err(e) => Err(SignerError::X509Util(Box::new(e))),
        }
    }
}

/// A signer with the key that `pem` holds as the PEM text of a PKCS#8
/// document, which must be a key on `curve`.
pub fn read_key_to_signer(pem: &str, curve: EcdsaCurve) -> (r: Result<EcSigner, SignerError>)
    ensures
        match r {
            Ok(signer) => signer.curve() == curve && key_of_pem(curve, pem@) == Some(
                signer.key_pair().key(),
            ),
            Err(_) => key_of_pem(curve, pem@) is None,
        },
{
    let inner = match curve {
        EcdsaCurve::P256 => match P256Signer::from_pkcs8_pem(pem) {
            Ok(k) => EcKeyPair::P256(k),
            Err(e) => { return Err(e); },
        },
        EcdsaCurve::P384 => match P384Signer::from_pkcs8_pem(pem) {
            Ok(k) => EcKeyPair::P384(k),
            Err(e) => { return Err(e); },
        },
    };
    Ok(EcSigner { curve, inner })
}

/// A signer with a fresh key on `curve`, whose public key has been read
/// from the key's document. A failure to write or to read the document comes
/// as `Pkcs8`, one to encode the public key as `Spki`.
pub fn new_signer(curve: EcdsaCurve) -> (r: Result<EcSigner, SignerError>)
    ensures
        r matches Ok(signer) ==> signer.curve() == curve && signer.key_pair().curve() == curve
            && signer.key_pair().public_key() is Some,
        r matches Err(e) ==> e is Pkcs8 || e is Spki,
{
    let inner = match curve {
        EcdsaCurve::P256 => match P256Signer::random() {
            Ok(k) => EcKeyPair::P256(k),
            Err(e) => { return Err(e); },
        },
        EcdsaCurve::P384 => match P384Signer::random() {
            Ok(k) => EcKeyPair::P384(k),
            Err(e) => { return Err(e); },
        },
    };
    Ok(EcSigner { curve, inner })
}

/// The signer for a key on `curve`: with the existing key, whose file holds
/// PEM text, or with a fresh key, which is handed back to be written to its
/// file.
pub fn get_signer(curve: EcdsaCurve, key: KeyInput<&str>) -> (r: Result<
    Obtained<EcSigner>,
    GetSignerError,
>)
    ensures
        key is Missing ==> r matches Err(GetSignerError::MissingKey),
        !(key is Missing) ==> (r matches Err(e) ==> e is Signer),
        key matches KeyInput::Existing(pem) ==> (r is Ok <==> key_of_pem(curve, pem@) is Some),
        key matches KeyInput::Existing(pem) ==> (r matches Ok(got) ==> key_of_pem(curve, pem@)
            == Some(got.signer.key_pair().key())),
        r is Ok ==> r.unwrap().signer.curve() == curve,
        r is Ok ==> (key is Existing <==> r.unwrap().new_key is None),
        r is Ok && key is New ==> r.unwrap().new_key_bytes() == Some(
            r.unwrap().signer.key_pair().key(),
        ),
{
    match key {
        KeyInput::Existing(pem) => match read_key_to_signer(pem, curve) {
            Ok(signer) => Ok(Obtained { signer, new_key: None }),
            Err(e) => Err(GetSignerError::Signer(e)),
        },
        KeyInput::New => match new_signer(curve) {
            Ok(signer) => {
                let der = signer.to_pkcs8_der();
                Ok(Obtained { signer, new_key: Some(der) })
            },
            Err(e) => Err(GetSignerError::Signer(e)),
        },
        KeyInput::Missing => Err(GetSignerError::MissingKey),
    }
}

/// What an ECDSA signer signs with is what its algorithm identifier says:
/// the identifier is ecdsa-with-SHA256 for a key on P-256 and
/// ecdsa-with-SHA384 for a key on P-384, without parameters, and the key of
/// each curve signs the digest of that very hash.
pub proof fn lemma_ec_identifier_matches_curve(signer: EcSigner)
    ensures
        signer.scheme() == SignatureScheme::Ecdsa,
        signer.hash() == spec_curve_hash(signer.curve()),
        registered(signer.scheme(), signer.hash()) == Some(
            AlgorithmIdentifierView {
                oid: match signer.curve() {
                    EcdsaCurve::P256 => SignatureOid::EcdsaWithSha256,
                    EcdsaCurve::P384 => SignatureOid::EcdsaWithSha384,
                },
                parameters: None,
            },
        ),
{
}

} // verus!

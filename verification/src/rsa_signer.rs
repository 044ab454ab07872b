//! A signer that holds an RSA key.

use pkcs8::{DecodePrivateKey, EncodePrivateKey, EncodePublicKey};
use rand_core::OsRng;
use sha2::{Sha256, Sha384, Sha512};
use vstd::prelude::*;
use vstd::slice::slice_to_vec;

use crate::algorithm_identifier::{
    identifier, registered, spec_signature_oid, AlgorithmIdentifier, AlgorithmIdentifierView,
    SignatureOid, SignatureScheme,
};
use crate::cli::{GetSignerError, HashMode, KeyInput, Obtained, RSAKeySize, RSASigningMode};
use crate::context::Context;
use crate::digest::{digest, sha2_digest, spec_output_len};
use crate::ec_signer::key_outcome;
use crate::serial::{be_value, exceeds_one};
use crate::error::SignerError;
use crate::rsa_pss_params::{hash_algorithm_der, pss_params_der, spec_salt_len};
use crate::signer::Signer;
use crate::subject_public_key_info::{spki_key_bits, SubjectPublicKeyInfo};

verus! {

/// `rsa::RsaPrivateKey`: an RSA private key.
#[verifier::external_type_specification]
#[verifier::external_body]
pub struct ExRsaPrivateKey(rsa::RsaPrivateKey);

/// The padding of an RSA signature, with the hash that the signed digest was
/// made with.
#[derive(Debug, Clone, Copy, PartialEq, Eq, Structural)]
pub enum PaddingScheme {
    /// RSASSA-PKCS1-v1_5 over a digest of the given hash.
    Pkcs1v15Sign { hash: HashMode },
    /// RSASSA-PSS over a digest of the given hash, with MGF1 over the same
    /// hash and a salt of the given length.
    Pss { hash: HashMode, salt_len: usize },
}

/// The two primes, as big-endian bytes, of the RSA private key that `der`
/// holds as a PKCS#8 document with a PKCS#1 key inside. `None` where `der`
/// does not decode as such a document.
pub uninterp spec fn rsa_key_primes(der: Seq<u8>) -> Option<(Seq<u8>, Seq<u8>)>;

/// Whether `der` is a PKCS#8 document that holds an RSA private key which the
/// `rsa` crate decodes and finds valid: of two primes whose product is the
/// modulus, with exponents that fit them.
pub uninterp spec fn holds_rsa_key(der: Seq<u8>) -> bool;

/// The length in bytes of the modulus of the RSA key that `key` holds as a
/// PKCS#8 document.
pub uninterp spec fn rsa_modulus_len(key: Seq<u8>) -> nat;

/// The DER-encoded SubjectPublicKeyInfo of the public key that belongs to the
/// RSA private key which `key` holds as a PKCS#8 document. `None` where the
/// encoder fails.
pub uninterp spec fn rsa_public_key(key: Seq<u8>) -> Option<Seq<u8>>;

/// The RSASSA-PKCS1-v1_5 signature over `digest`, as a digest of `hash`, by
/// the RSA private key which `key` holds as a PKCS#8 document. `None` where
/// signing fails, as it does where `digest` has not the length of the hash's
/// output or the key is too small.
pub uninterp spec fn rsa_pkcs1v15_signature(key: Seq<u8>, hash: HashMode, digest: Seq<u8>) -> Option<
    Seq<u8>,
>;

/// Both primes of the key in a document can be read and are greater than
/// one. The `rsa` crate divides by each prime less one when it decodes a key.
pub open spec fn primes_exceed_one(der: Seq<u8>) -> bool {
    rsa_key_primes(der) matches Some(primes) && be_value(primes.0) > 1 && be_value(primes.1) > 1
}

/// A document that the signing functions can take: its primes are greater
/// than one, and it holds a valid RSA key.
pub open spec fn usable_rsa_key(der: Seq<u8>) -> bool {
    primes_exceed_one(der) && holds_rsa_key(der)
}

/// `pkcs8::PrivateKeyInfo::try_from` and, on the private key inside,
/// `pkcs1::RsaPrivateKey::try_from`, of which the two primes are handed on.
#[verifier::external_body]
fn read_primes(der: &[u8]) -> (r: Result<(Vec<u8>, Vec<u8>), pkcs8::Error>)
    ensures
        match r {
            Ok(primes) => rsa_key_primes(der@) == Some((primes.0@, primes.1@)),
            Err(_) => rsa_key_primes(der@) is None,
        },
{
    let info = pkcs8::PrivateKeyInfo::try_from(der)?;
    let key = pkcs1::RsaPrivateKey::try_from(info.private_key)?;
    Ok((key.prime1.as_bytes().to_vec(), key.prime2.as_bytes().to_vec()))
}

/// `pkcs8::Error::KeyMalformed`: the error of a document whose key is no
/// key.
#[verifier::external_body]
fn key_malformed() -> pkcs8::Error {
    pkcs8::Error::KeyMalformed
}

/// `pkcs8::DecodePrivateKey::from_pkcs8_der` for an RSA key, and on the key
/// `rsa::RsaPrivateKey::validate`, whose failure comes as `KeyMalformed`.
/// Both divide by each prime less one, so the primes must exceed one.
#[verifier::external_body]
fn check_key(der: &[u8]) -> (r: Result<(), pkcs8::Error>)
    requires
        primes_exceed_one(der@),
    ensures
        r is Ok <==> holds_rsa_key(der@),
{
    let key = rsa::RsaPrivateKey::from_pkcs8_der(der)?;
    key.validate().map_err(|_| pkcs8::Error::KeyMalformed)
}

/// `rsa::RsaPrivateKey::new` with the operating system's random number
/// generator, for a modulus of `bit_size` bits, and of the fresh key
/// `to_pkcs8_der`.
#[verifier::external_body]
fn generate_key(bit_size: usize) -> Result<Vec<u8>, rsa::errors::Error> {
    let key = rsa::RsaPrivateKey::new(&mut OsRng, bit_size)?;
    Ok(key.to_pkcs8_der()?.as_bytes().to_vec())
}

/// `rsa::errors::Error::from` a `pkcs8::Error`: the error wrapped as
/// `Pkcs8`.
#[verifier::external_body]
fn rsa_error_of(e: pkcs8::Error) -> rsa::errors::Error {
    rsa::errors::Error::from(e)
}

/// `pkcs8::EncodePrivateKey::to_pkcs8_der` for an RSA key: the key as a
/// PKCS#8 document.
#[verifier::external_body]
fn encode_key(key: &rsa::RsaPrivateKey) -> Result<Vec<u8>, pkcs8::Error> {
    key.to_pkcs8_der().map(|doc| doc.as_bytes().to_vec())
}

/// `spki::EncodePublicKey::to_public_key_der` on the `to_public_key` of the
/// RSA key that `from_pkcs8_der` decodes from `key`.
#[verifier::external_body]
fn encode_public_key(key: &[u8]) -> (r: Result<Vec<u8>, SignerError>)
    requires
        usable_rsa_key(key@),
    ensures
        key_outcome(r, rsa_public_key(key@)),
{
    let key = rsa::RsaPrivateKey::from_pkcs8_der(key).map_err(SignerError::Pkcs8)?;
    let doc = key.to_public_key().to_public_key_der().map_err(SignerError::Spki)?;
    Ok(doc.as_bytes().to_vec())
}

/// `rsa::RsaPrivateKey::sign`, by the key that `from_pkcs8_der` decodes from
/// `key`, with the padding `rsa::PaddingScheme::new_pkcs1v15_sign` for the
/// digest type of `hash`. It uses no random numbers, and a signature is as
/// long as the key's modulus.
#[verifier::external_body]
fn sign_pkcs1v15(key: &[u8], hash: HashMode, digest: &[u8]) -> (r: Result<
    Vec<u8>,
    rsa::errors::Error,
>)
    requires
        usable_rsa_key(key@),
    ensures
        match r {
            Ok(signature) => rsa_pkcs1v15_signature(key@, hash, digest@) == Some(signature@),
            Err(_) => rsa_pkcs1v15_signature(key@, hash, digest@) is None,
        },
        r matches Ok(signature) ==> signature@.len() == rsa_modulus_len(key@),
{
    let padding = match hash {
        HashMode::SHA256 => rsa::PaddingScheme::new_pkcs1v15_sign::<Sha256>(),
        HashMode::SHA384 => rsa::PaddingScheme::new_pkcs1v15_sign::<Sha384>(),
        HashMode::SHA512 => rsa::PaddingScheme::new_pkcs1v15_sign::<Sha512>(),
    };
    rsa::RsaPrivateKey::from_pkcs8_der(key)?.sign(padding, digest)
}

/// `rsa::RsaPrivateKey::sign_with_rng`, by the key that `from_pkcs8_der`
/// decodes from `key`, with the operating system's random number generator
/// and the padding `rsa::PaddingScheme::new_pss_with_salt` for the digest
/// type of `hash` and the given salt length. A signature is as long as the
/// key's modulus.
#[verifier::external_body]
fn sign_pss(key: &[u8], hash: HashMode, salt_len: usize, digest: &[u8]) -> (r: Result<
    Vec<u8>,
    rsa::errors::Error,
>)
    requires
        usable_rsa_key(key@),
    ensures
        r matches Ok(signature) ==> signature@.len() == rsa_modulus_len(key@),
{
    let padding = match hash {
        HashMode::SHA256 => rsa::PaddingScheme::new_pss_with_salt::<Sha256>(salt_len),
        HashMode::SHA384 => rsa::PaddingScheme::new_pss_with_salt::<Sha384>(salt_len),
        HashMode::SHA512 => rsa::PaddingScheme::new_pss_with_salt::<Sha512>(salt_len),
    };
    rsa::RsaPrivateKey::from_pkcs8_der(key)?.sign_with_rng(&mut OsRng, padding, digest)
}

/// Tells `rsa::errors::Error::Internal` from the other RSA errors.
#[verifier::external_body]
fn is_internal(e: &rsa::errors::Error) -> bool {
    match e {
        rsa::errors::Error::Internal => true,
        _ => false,
    }
}

impl SignerError {
    /// Wraps an error of the RSA operations: as `RsaInternal` or as `Rsa`,
    /// with the error inside.
    pub fn from_rsa(v: rsa::errors::Error) -> (e: SignerError)
        ensures
            e == SignerError::RsaInternal(v) || e == SignerError::Rsa(v),
    {
        if is_internal(&v) {
            SignerError::RsaInternal(v)
        } else {
            SignerError::Rsa(v)
        }
    }
}

/// A signer with an RSA key, a padding and a hash. The key is kept as a
/// PKCS#8 document.
pub struct RsaSigner {
    mode: RSASigningMode,
    hash_mode: HashMode,
    key: Vec<u8>,
}

/// The signature of a signer, once the RSA operation has answered: the
/// signature itself, or the failure wrapped as `RsaInternal` or as `Rsa`.
pub fn signature_or_error(answer: Result<Vec<u8>, rsa::errors::Error>) -> (r: Result<
    Vec<u8>,
    SignerError,
>)
    ensures
        match answer {
            Ok(signature) => r == Ok::<Vec<u8>, SignerError>(signature),
            Err(cause) => r matches Err(e) && (e == SignerError::RsaInternal(cause) || e
                == SignerError::Rsa(cause)),
        },
{
    match answer {
        Ok(signature) => Ok(signature),
        Err(e) => Err(SignerError::from_rsa(e)),
    }
}

/// The public key of a signer, once its encoding is there: decoded into
/// `context`, or the failure to decode it wrapped as `X509Util`.
pub fn decoded_public_key<'b>(context: &'b Context, der: &[u8]) -> (r: Result<
    SubjectPublicKeyInfo<'b>,
    SignerError,
>)
    ensures
        match r {
            Ok(info) => info.encoding() == der@ && spki_key_bits(der@) == Some(info.key_bits()),
            Err(e) => spki_key_bits(der@) is None && e is X509Util,
        },
{
    match SubjectPublicKeyInfo::from_der(context, der) {
        Ok(info) => Ok(info),
        Err(e) => Err(SignerError::X509Util(Box::new(e))),
    }
}

impl RsaSigner {
    #[verifier::type_invariant]
    spec fn holds_usable_key(self) -> bool {
        usable_rsa_key(self.key@)
    }

    /// The padding that the signer signs with.
    pub closed spec fn mode(&self) -> RSASigningMode {
        self.mode
    }

    /// The hash that the signer signs over.
    pub closed spec fn hash_mode(&self) -> HashMode {
        self.hash_mode
    }

    /// The key that the signer signs with, as a PKCS#8 document.
    pub closed spec fn key(&self) -> Seq<u8> {
        self.key@
    }

    /// The padding scheme that goes with a padding and a hash: for PSS, the
    /// salt is as long as the hash's output.
    pub open spec fn padding_scheme(mode: RSASigningMode, hash: HashMode) -> PaddingScheme {
        match mode {
            RSASigningMode::Pkcs1v15 => PaddingScheme::Pkcs1v15Sign { hash },
            RSASigningMode::Pss => PaddingScheme::Pss { hash, salt_len: spec_output_len(hash) },
        }
    }

    /// The signature scheme that goes with a padding.
    pub open spec fn scheme_of(mode: RSASigningMode) -> SignatureScheme {
        match mode {
            RSASigningMode::Pkcs1v15 => SignatureScheme::RsaPkcs1v15,
            RSASigningMode::Pss => SignatureScheme::RsaPss,
        }
    }

    /// Whether `signature` is what the signer may answer to `data`: it is as
    /// long as the modulus of the signer's key and, with the padding PKCS#1
    /// v1.5, it is the one signature of that key over the digest of `data`
    /// under the signer's hash. With the padding PSS the salt is random.
    pub open spec fn signs_data(&self, data: Seq<u8>, signature: Seq<u8>) -> bool {
        &&& signature.len() == rsa_modulus_len(self.key())
        &&& self.mode() is Pkcs1v15 ==> rsa_pkcs1v15_signature(
            self.key(),
            self.hash_mode(),
            sha2_digest(self.hash_mode(), data),
        ) == Some(signature)
    }

    /// What the signer answers to `data`: a signature that it signs `data`
    /// with; or a failure of the RSA operation, wrapped as `Rsa` or
    /// `RsaInternal`, which with the padding PKCS#1 v1.5 comes exactly where
    /// the key has no signature over the digest.
    pub open spec fn answers(&self, data: Seq<u8>, r: Result<Vec<u8>, SignerError>) -> bool {
        match r {
            Ok(signature) => self.signs_data(data, signature@),
            Err(e) => (self.mode() is Pkcs1v15 ==> rsa_pkcs1v15_signature(
                self.key(),
                self.hash_mode(),
                sha2_digest(self.hash_mode(), data),
            ) is None) && (e is Rsa || e is RsaInternal),
        }
    }

    /// A signer with a fresh key of `bit_size` bits. The fresh key is
    /// written as a PKCS#8 document and read back as a document from a file
    /// is; a failure of that comes as the RSA error that wraps it.
    pub fn random(mode: RSASigningMode, hash_mode: HashMode, bit_size: usize) -> (r: Result<
        RsaSigner,
        rsa::errors::Error,
    >)
        ensures
            r matches Ok(signer) ==> signer.mode() == mode && signer.hash_mode() == hash_mode
                && usable_rsa_key(signer.key()),
    {
        let key = match generate_key(bit_size) {
            Ok(key) => key,
            Err(e) => { return Err(e); },
        };
        match Self::from_pkcs8_der(key.as_slice(), mode, hash_mode) {
            Ok(signer) => Ok(signer),
            Err(e) => Err(rsa_error_of(e)),
        }
    }

    /// A signer with the given key, if the key can be written as a PKCS#8
    /// document and read back as a document from a file is.
    pub fn from_key(key: rsa::RsaPrivateKey, mode: RSASigningMode, hash_mode: HashMode) -> (r:
        Result<RsaSigner, pkcs8::Error>)
        ensures
            r matches Ok(signer) ==> signer.mode() == mode && signer.hash_mode() == hash_mode
                && usable_rsa_key(signer.key()),
    {
        match encode_key(&key) {
            Ok(key) => Self::from_pkcs8_der(key.as_slice(), mode, hash_mode),
            Err(e) => Err(e),
        }
    }

    /// A signer with the key that `der` holds as a PKCS#8 document. The
    /// document is taken where its two primes can be read and are both
    /// greater than one, and the `rsa` crate then finds the key valid.
    pub fn from_pkcs8_der(der: &[u8], mode: RSASigningMode, hash_mode: HashMode) -> (r: Result<
        RsaSigner,
        pkcs8::Error,
    >)
        ensures
            r is Ok <==> usable_rsa_key(der@),
            r matches Ok(signer) ==> signer.mode() == mode && signer.hash_mode() == hash_mode
                && signer.key() == der@,
    {
        let primes = match read_primes(der) {
            Ok(primes) => primes,
            Err(e) => { return Err(e); },
        };
        if !exceeds_one(primes.0.as_slice()) || !exceeds_one(primes.1.as_slice()) {
            return Err(key_malformed());
        }
        match check_key(der) {
            Ok(()) => Ok(RsaSigner { mode, hash_mode, key: slice_to_vec(der) }),
            Err(e) => Err(e),
        }
    }

    /// The signer's key as a PKCS#8 document.
    pub fn to_pkcs8_der(&self) -> (r: Result<Vec<u8>, pkcs8::Error>)
        ensures
            r matches Ok(der) && der@ == self.key() && usable_rsa_key(der@),
    {
        proof {
            use_type_invariant(self);
        }
        let der = self.key.clone();
        assert(der@ =~= self.key@);
        Ok(der)
    }

    /// The digest that the signer signs in place of `data`.
    pub fn digest_data(&self, data: &[u8]) -> (d: Vec<u8>)
        ensures
            d@ == sha2_digest(self.hash_mode(), data@),
            d@.len() == spec_output_len(self.hash_mode()),
    {
        digest(self.hash_mode, data)
    }

    /// The padding scheme that the signer signs with.
    pub fn as_padding_scheme(&self) -> (padding: PaddingScheme)
        ensures
            padding == Self::padding_scheme(self.mode(), self.hash_mode()),
    {
        match self.mode {
            RSASigningMode::Pkcs1v15 => match self.hash_mode {
                HashMode::SHA256 => PaddingScheme::Pkcs1v15Sign { hash: HashMode::SHA256 },
                HashMode::SHA384 => PaddingScheme::Pkcs1v15Sign { hash: HashMode::SHA384 },
                HashMode::SHA512 => PaddingScheme::Pkcs1v15Sign { hash: HashMode::SHA512 },
            },
            RSASigningMode::Pss => match self.hash_mode {
                HashMode::SHA256 => PaddingScheme::Pss { hash: HashMode::SHA256, salt_len: 32 },
                HashMode::SHA384 => PaddingScheme::Pss { hash: HashMode::SHA384, salt_len: 48 },
                HashMode::SHA512 => PaddingScheme::Pss { hash: HashMode::SHA512, salt_len: 64 },
            },
        }
    }
}

impl Signer for RsaSigner {
    open spec fn scheme(&self) -> SignatureScheme {
        Self::scheme_of(self.mode())
    }

    open spec fn hash(&self) -> HashMode {
        self.hash_mode()
    }

    open spec fn signs(&self, data: Seq<u8>, signature: Seq<u8>) -> bool {
        self.signs_data(data, signature)
    }

    open spec fn has_public_key(&self, encoding: Seq<u8>) -> bool {
        rsa_public_key(self.key()) == Some(encoding)
    }

    /// Signs the digest of `data` under the signer's hash, with the signer's
    /// padding scheme. A failure of the RSA operation comes wrapped as
    /// `RsaInternal` or as `Rsa`.
    fn sign(&self, data: &[u8]) -> (r: Result<Vec<u8>, SignerError>)
        ensures
            self.answers(data@, r),
    {
        proof {
            use_type_invariant(self);
        }
        let digest = self.digest_data(data);
        let signed = match self.as_padding_scheme() {
            PaddingScheme::Pkcs1v15Sign { hash } => sign_pkcs1v15(
                self.key.as_slice(),
                hash,
                digest.as_slice(),
            ),
            PaddingScheme::Pss { hash, salt_len } => sign_pss(
                self.key.as_slice(),
                hash,
                salt_len,
                digest.as_slice(),
            ),
        };
        signature_or_error(signed)
    }

    /// The registered identifier of the signer's padding and hash.
    fn signature_algorithm(&self) -> (r: Result<AlgorithmIdentifier, SignerError>)
        ensures
            r is Ok,
    {
        let scheme = match self.mode {
            RSASigningMode::Pkcs1v15 => SignatureScheme::RsaPkcs1v15,
            RSASigningMode::Pss => SignatureScheme::RsaPss,
        };
        match identifier(scheme, self.hash_mode) {
            Ok(id) => Ok(id),
            Err(e) => Err(SignerError::X509Util(Box::new(e))),
        }
    }

    /// The public key that belongs to the signer's key, decoded into
    /// `context`. It fails where the key has no encoded public key, with the
    /// encoder's failure, and where that encoding cannot be decoded, with the
    /// failure wrapped as `X509Util`.
    fn subject_public_key_info<'b>(&self, context: &'b Context) -> (r: Result<
        SubjectPublicKeyInfo<'b>,
        SignerError,
    >)
        ensures
            r is Ok <==> (rsa_public_key(self.key()) matches Some(der) && spki_key_bits(der)
                is Some),
            r matches Ok(info) ==> Some(info.encoding()) == rsa_public_key(self.key())
                && spki_key_bits(info.encoding()) == Some(info.key_bits()),
            r matches Err(e) ==> (rsa_public_key(self.key()) is Some ==> e is X509Util),
    {
        proof {
            use_type_invariant(self);
        }
        let der = match encode_public_key(self.key.as_slice()) {
            Ok(der) => der,
            Err(e) => { return Err(e); },
        };
        decoded_public_key(context, der.as_slice())
    }
}

/// The hash that goes with a key size where none is chosen: SHA-256 up to
/// 2048 bits, SHA-384 with 3072 bits, SHA-512 with 4096 bits.
pub open spec fn spec_default_hash_mode(size: RSAKeySize) -> HashMode {
    match size {
        RSAKeySize::RSA1024 => HashMode::SHA256,
        RSAKeySize::RSA2048 => HashMode::SHA256,
        RSAKeySize::RSA3072 => HashMode::SHA384,
        RSAKeySize::RSA4096 => HashMode::SHA512,
    }
}

/// The hash that goes with a key size where none is chosen.
#[verifier::when_used_as_spec(spec_default_hash_mode)]
pub fn default_hash_mode(size: RSAKeySize) -> (hash: HashMode)
    ensures
        hash == spec_default_hash_mode(size),
{
    match size {
        RSAKeySize::RSA1024 => HashMode::SHA256,
        RSAKeySize::RSA2048 => HashMode::SHA256,
        RSAKeySize::RSA3072 => HashMode::SHA384,
        RSAKeySize::RSA4096 => HashMode::SHA512,
    }
}

/// The hash that a signer signs over: the chosen one, or the one that goes
/// with the key size.
pub open spec fn chosen_hash_mode(size: RSAKeySize, hash_mode: Option<HashMode>) -> HashMode {
    match hash_mode {
        Some(hash) => hash,
        None => spec_default_hash_mode(size),
    }
}

/// The RSA signer for a padding and a hash: with the existing key, whose
/// file holds a PKCS#8 document, or with a fresh key of the given size, which
/// is handed back to be written to its file.
pub fn get_signer(
    size: RSAKeySize,
    mode: RSASigningMode,
    hash_mode: Option<HashMode>,
    key: KeyInput<&[u8]>,
) -> (r: Result<Obtained<RsaSigner>, GetSignerError>)
    ensures
        key is Missing ==> r matches Err(GetSignerError::MissingKey),
        !(key is Missing) ==> (r matches Err(e) ==> e is Signer),
        r matches Ok(got) ==> got.signer.mode() == mode && got.signer.hash_mode()
            == chosen_hash_mode(size, hash_mode) && (key is Existing <==> got.new_key is None),
        key matches KeyInput::Existing(der) ==> (r is Ok <==> usable_rsa_key(der@)),
        r matches Ok(got) ==> usable_rsa_key(got.signer.key()),
        key matches KeyInput::Existing(der) ==> (r matches Ok(got) ==> got.signer.key() == der@),
        key is New ==> (r matches Ok(got) ==> got.new_key_bytes() == Some(got.signer.key())),
{
    let hash_mode = match hash_mode {
        Some(hash) => hash,
        None => default_hash_mode(size),
    };
    match key {
        KeyInput::Existing(der) => match RsaSigner::from_pkcs8_der(der, mode, hash_mode) {
            Ok(signer) => Ok(Obtained { signer, new_key: None }),
            Err(e) => Err(GetSignerError::Signer(SignerError::Pkcs8(e))),
        },
        KeyInput::New => {
            let signer = match RsaSigner::random(mode, hash_mode, size.bits()) {
                Ok(signer) => signer,
                Err(e) => { return Err(GetSignerError::Signer(SignerError::Rsa(e))); },
            };
            match signer.to_pkcs8_der() {
                Ok(der) => Ok(Obtained { signer, new_key: Some(der) }),
                Err(e) => Err(GetSignerError::Signer(SignerError::Pkcs8(e))),
            }
        },
        KeyInput::Missing => Err(GetSignerError::MissingKey),
    }
}

/// What an RSA signer signs with is what its algorithm identifier says. With
/// the padding PKCS#1 v1.5 over the digest of a hash, the identifier is the
/// object identifier of that hash with RSA, without parameters. With the
/// padding PSS over the digest of a hash and a salt of some length, the
/// identifier is id-RSASSA-PSS with the parameters that name that hash, MGF1
/// over that hash, and that length as the salt length.
pub proof fn lemma_rsa_identifier_matches_padding(signer: RsaSigner)
    ensures
        match RsaSigner::padding_scheme(signer.mode(), signer.hash_mode()) {
            PaddingScheme::Pkcs1v15Sign { hash } => registered(signer.scheme(), signer.hash())
                == Some(
                AlgorithmIdentifierView {
                    oid: spec_signature_oid(SignatureScheme::RsaPkcs1v15, hash),
                    parameters: None,
                },
            ),
            PaddingScheme::Pss { hash, salt_len } => {
                &&& salt_len == spec_salt_len(hash)
                &&& hash_algorithm_der(hash) matches Some(mgf_parameters) ==> registered(
                    signer.scheme(),
                    signer.hash(),
                ) == (match pss_params_der(hash, mgf_parameters, salt_len as u8) {
                    Some(parameters) => Some(
                        AlgorithmIdentifierView {
                            oid: SignatureOid::RsassaPss,
                            parameters: Some(parameters),
                        },
                    ),
                    None => None,
                })
            },
        },
        signer.hash() == signer.hash_mode(),
{
}

} // verus!

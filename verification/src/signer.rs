//! The certificate to be signed, the signer, and the assembly of the signed
//! certificate.

use der::asn1::{BitStringRef, UIntRef};
use der::{Decode, Encode};
use vstd::prelude::*;
use x509_cert::Version;

use crate::algorithm_identifier::{
    registered, AlgorithmIdentifier, AlgorithmIdentifierView, SignatureScheme,
};
use crate::cli::HashMode;
use crate::context::Context;
use crate::encoding::{der_outcome, encoded_as, lift};
use crate::error::{SignerError, X509Error};
use crate::extensions::{Extension, ExtensionId, ExtensionView};
use crate::name::{name_der, AttributeView, Name, MAX_DER_LENGTH};
use crate::serial::SerialNumber;
use crate::subject_public_key_info::SubjectPublicKeyInfo;
use crate::time::Validity;

verus! {

/// `x509_cert::Version`: the versions of a certificate, `V1`, `V2` and `V3`.
#[verifier::external_type_specification]
pub struct ExVersion(x509_cert::Version);

/// The fields of a certificate that the signature covers.
#[derive(Debug)]
pub struct TbsCertificate<'a> {
    pub version: Version,
    pub serial_number: SerialNumber<'a>,
    /// The algorithm that the issuer signs with.
    pub signature: AlgorithmIdentifier,
    pub issuer: Name<'a>,
    pub validity: Validity,
    pub subject: Name<'a>,
    pub subject_public_key_info: SubjectPublicKeyInfo<'a>,
    pub extensions: Option<Vec<Extension<'a>>>,
}

/// What a [`TbsCertificate`] stands for.
pub struct TbsCertificateView {
    pub version: Version,
    /// The big-endian bytes of the serial number.
    pub serial_number: Seq<u8>,
    pub signature: AlgorithmIdentifierView,
    pub issuer: Seq<AttributeView>,
    pub validity: Validity,
    pub subject: Seq<AttributeView>,
    /// The DER encoding of the subject's public key information.
    pub subject_public_key_info: Seq<u8>,
    /// The bytes of the subject's public key, which that information holds.
    pub subject_public_key: Seq<u8>,
    pub extensions: Option<Seq<ExtensionView>>,
}

/// A signed certificate.
#[derive(Debug)]
pub struct Certificate<'a> {
    pub tbs_certificate: TbsCertificate<'a>,
    /// The algorithm that the signature was made with.
    pub signature_algorithm: AlgorithmIdentifier,
    /// The signature. Its bytes live in a [`Context`].
    pub signature: &'a [u8],
}

/// What a [`Certificate`] stands for.
pub struct CertificateView {
    pub tbs_certificate: TbsCertificateView,
    pub signature_algorithm: AlgorithmIdentifierView,
    pub signature: Seq<u8>,
}

/// What a list of extensions stands for.
pub open spec fn extension_views(extensions: Seq<Extension<'_>>) -> Seq<ExtensionView> {
    extensions.map_values(|e: Extension<'_>| e@)
}

impl<'a> View for TbsCertificate<'a> {
    type V = TbsCertificateView;

    open spec fn view(&self) -> TbsCertificateView {
        TbsCertificateView {
            version: self.version,
            serial_number: self.serial_number.magnitude(),
            signature: self.signature@,
            issuer: self.issuer@,
            validity: self.validity,
            subject: self.subject@,
            subject_public_key_info: self.subject_public_key_info.encoding(),
            subject_public_key: self.subject_public_key_info.key_bits(),
            extensions: match self.extensions {
                Some(extensions) => Some(extension_views(extensions@)),
                None => None,
            },
        }
    }
}

impl<'a> View for Certificate<'a> {
    type V = CertificateView;

    open spec fn view(&self) -> CertificateView {
        CertificateView {
            tbs_certificate: self.tbs_certificate@,
            signature_algorithm: self.signature_algorithm@,
            signature: self.signature@,
        }
    }
}

/// The DER encoding of a list of extensions. `None` where the encoder fails.
pub uninterp spec fn extensions_der(extensions: Seq<ExtensionView>) -> Option<Seq<u8>>;

/// The DER encoding of the to-be-signed certificate with the given version
/// and serial number, whose other fields are the values that the arguments
/// are the DER encodings of, without unique identifiers, and with extensions
/// only where some are given. `None` where an argument is no such encoding or
/// the encoder fails.
pub uninterp spec fn tbs_certificate_der(
    version: Version,
    serial_number: Seq<u8>,
    signature: Seq<u8>,
    issuer: Seq<u8>,
    validity: Seq<u8>,
    subject: Seq<u8>,
    subject_public_key_info: Seq<u8>,
    extensions: Option<Seq<u8>>,
) -> Option<Seq<u8>>;

/// The DER encoding of the certificate whose to-be-signed part and signature
/// algorithm are the values that the first two arguments are the DER
/// encodings of, and whose signature is the bit string of the bytes of
/// `signature`. `None` where an argument is no such encoding or the encoder
/// fails.
pub uninterp spec fn certificate_der(
    tbs_certificate: Seq<u8>,
    signature_algorithm: Seq<u8>,
    signature: Seq<u8>,
) -> Option<Seq<u8>>;

/// `der::Encode::to_vec` on the list of `x509_cert::ext::Extension` that
/// holds, for each extension of `extensions` in turn, the object identifier
/// from RFC 5280, the criticality and the value.
#[verifier::external_body]
fn encode_extensions(extensions: &[Extension<'_>]) -> (r: Result<Vec<u8>, der::Error>)
    ensures
        der_outcome(r, extensions_der(extension_views(extensions@))),
{
    let mut out = Vec::with_capacity(extensions.len());
    for e in extensions {
        let extn_id = match e.extn_id {
            ExtensionId::BasicConstraints => const_oid::db::rfc5280::ID_CE_BASIC_CONSTRAINTS,
            ExtensionId::KeyUsage => const_oid::db::rfc5280::ID_CE_KEY_USAGE,
            ExtensionId::SubjectKeyIdentifier => const_oid::db::rfc5280::ID_CE_SUBJECT_KEY_IDENTIFIER,
            ExtensionId::AuthorityKeyIdentifier => const_oid::db::rfc5280::ID_CE_AUTHORITY_KEY_IDENTIFIER,
        };
        out.push(x509_cert::ext::Extension { extn_id, critical: e.critical, extn_value: e.extn_value });
    }
    out.to_vec()
}

/// `der::Encode::to_vec` on the `x509_cert::TbsCertificate` with the given
/// version, the serial number `UIntRef::new(serial_number)`, no unique
/// identifiers, and the other fields decoded, each by its type's `from_der`,
/// from the encodings given.
#[verifier::external_body]
fn encode_tbs_certificate(
    version: Version,
    serial_number: &[u8],
    signature: &[u8],
    issuer: &[u8],
    validity: &[u8],
    subject: &[u8],
    subject_public_key_info: &[u8],
    extensions: Option<&[u8]>,
) -> (r: Result<Vec<u8>, der::Error>)
    ensures
        der_outcome(
            r,
            tbs_certificate_der(
                version,
                serial_number@,
                signature@,
                issuer@,
                validity@,
                subject@,
                subject_public_key_info@,
                match extensions {
                    Some(e) => Some(e@),
                    None => None,
                },
            ),
        ),
{
    x509_cert::TbsCertificate {
        version,
        serial_number: UIntRef::new(serial_number)?,
        signature: Decode::from_der(signature)?,
        issuer: Decode::from_der(issuer)?,
        validity: Decode::from_der(validity)?,
        subject: Decode::from_der(subject)?,
        subject_public_key_info: Decode::from_der(subject_public_key_info)?,
        issuer_unique_id: None,
        subject_unique_id: None,
        extensions: extensions.map(Decode::from_der).transpose()?,
    }.to_vec()
}

/// `der::asn1::BitStringRef::from_bytes`, of which `raw_bytes` is handed on:
/// a bit string of whole bytes holds the very bytes it was given, and takes
/// at most `MAX_DER_LENGTH` of them.
#[verifier::external_body]
fn bit_string<'a>(bytes: &'a [u8]) -> (r: Result<&'a [u8], der::Error>)
    ensures
        r is Ok <==> bytes@.len() <= MAX_DER_LENGTH,
        r is Ok ==> r.unwrap()@ == bytes@,
{
    BitStringRef::from_bytes(bytes).map(|bits| bits.raw_bytes())
}

/// `der::Encode::to_vec` on the `x509_cert::Certificate` whose to-be-signed
/// part and signature algorithm are decoded by `from_der` from the encodings
/// given, and whose signature is `BitStringRef::from_bytes(signature)`.
#[verifier::external_body]
fn encode_certificate(tbs_certificate: &[u8], signature_algorithm: &[u8], signature: &[u8]) -> (r:
    Result<Vec<u8>, der::Error>)
    ensures
        der_outcome(r, certificate_der(tbs_certificate@, signature_algorithm@, signature@)),
{
    x509_cert::Certificate {
        tbs_certificate: Decode::from_der(tbs_certificate)?,
        signature_algorithm: Decode::from_der(signature_algorithm)?,
        signature: BitStringRef::from_bytes(signature)?,
    }.to_vec()
}

impl TbsCertificateView {
    /// The DER encoding of the extensions, where there are any: `Some(None)`
    /// where there are none, `None` where they cannot be encoded.
    pub open spec fn extensions_der(self) -> Option<Option<Seq<u8>>> {
        match self.extensions {
            None => Some(None),
            Some(extensions) => match extensions_der(extensions) {
                Some(der) => Some(Some(der)),
                None => None,
            },
        }
    }

    /// The DER encoding of the to-be-signed certificate: that of the fields,
    /// each encoded on its own. `None` where a field cannot be encoded.
    pub open spec fn der(self) -> Option<Seq<u8>> {
        match (
            self.signature.der(),
            name_der(self.issuer),
            self.validity.der(),
            name_der(self.subject),
            self.extensions_der(),
        ) {
            (Some(signature), Some(issuer), Some(validity), Some(subject), Some(extensions)) => {
                tbs_certificate_der(
                    self.version,
                    self.serial_number,
                    signature,
                    issuer,
                    validity,
                    subject,
                    self.subject_public_key_info,
                    extensions,
                )
            },
            _ => None,
        }
    }
}

impl CertificateView {
    /// The DER encoding of the certificate. `None` where a part cannot be
    /// encoded.
    pub open spec fn der(self) -> Option<Seq<u8>> {
        match (self.tbs_certificate.der(), self.signature_algorithm.der()) {
            (Some(tbs), Some(algorithm)) => certificate_der(tbs, algorithm, self.signature),
            _ => None,
        }
    }
}

/// A copy of a list of extensions.
fn clone_extensions<'a>(extensions: &Vec<Extension<'a>>) -> (copy: Vec<Extension<'a>>)
    ensures
        copy@ == extensions@,
{
    let mut copy: Vec<Extension<'a>> = Vec::with_capacity(extensions.len());
    let mut i: usize = 0;
    while i < extensions.len()
        invariant
            i <= extensions.len(),
            copy@ == extensions@.take(i as int),
        decreases extensions.len() - i,
    {
        copy.push(extensions[i]);
        assert(copy@ =~= extensions@.take(i + 1));
        i = i + 1;
    }
    assert(extensions@.take(i as int) == extensions@);
    copy
}

impl<'a> Clone for TbsCertificate<'a> {
    fn clone(&self) -> (copy: Self)
        ensures
            copy@ == self@,
    {
        let extensions = match &self.extensions {
            Some(extensions) => Some(clone_extensions(extensions)),
            None => None,
        };
        TbsCertificate {
            version: self.version,
            serial_number: self.serial_number,
            signature: self.signature.clone(),
            issuer: self.issuer.clone(),
            validity: self.validity,
            subject: self.subject.clone(),
            subject_public_key_info: self.subject_public_key_info,
            extensions,
        }
    }
}

impl<'a> TbsCertificate<'a> {
    /// Encodes the to-be-signed certificate as DER: its fields first, each on
    /// its own, then the whole.
    pub fn to_der(&self) -> (r: Result<Vec<u8>, X509Error>)
        ensures
            encoded_as(r, self@.der()),
    {
        let signature = match self.signature.to_der() {
            Ok(der) => der,
            Err(e) => { return Err(e); },
        };
        let issuer = match self.issuer.to_der() {
            Ok(der) => der,
            Err(e) => { return Err(e); },
        };
        let validity = match self.validity.to_der() {
            Ok(der) => der,
            Err(e) => { return Err(e); },
        };
        let subject = match self.subject.to_der() {
            Ok(der) => der,
            Err(e) => { return Err(e); },
        };
        let extensions: Option<Vec<u8>> = match &self.extensions {
            Some(extensions) => match lift(encode_extensions(extensions.as_slice())) {
                Ok(der) => Some(der),
                Err(e) => { return Err(e); },
            },
            None => None,
        };
        let extensions_der: Option<&[u8]> = match &extensions {
            Some(der) => Some(der.as_slice()),
            None => None,
        };
        lift(
            encode_tbs_certificate(
                self.version,
                self.serial_number.as_bytes(),
                signature.as_slice(),
                issuer.as_slice(),
                validity.as_slice(),
                subject.as_slice(),
                self.subject_public_key_info.as_der(),
                extensions_der,
            ),
        )
    }
}

impl<'a> Certificate<'a> {
    /// Encodes the certificate as DER.
    pub fn to_der(&self) -> (r: Result<Vec<u8>, X509Error>)
        ensures
            encoded_as(r, self@.der()),
    {
        let tbs = match self.tbs_certificate.to_der() {
            Ok(der) => der,
            Err(e) => { return Err(e); },
        };
        let algorithm = match self.signature_algorithm.to_der() {
            Ok(der) => der,
            Err(e) => { return Err(e); },
        };
        lift(encode_certificate(tbs.as_slice(), algorithm.as_slice(), self.signature))
    }
}

/// A key that can sign: it signs bytes, names the algorithm that it signs
/// with, and hands out its public key.
pub trait Signer {
    /// How the signer signs, the hash aside.
    spec fn scheme(&self) -> SignatureScheme;

    /// The hash that the signer signs over.
    spec fn hash(&self) -> HashMode;

    /// Whether `signature` is a signature that the signer may give for
    /// `data`.
    spec fn signs(&self, data: Seq<u8>, signature: Seq<u8>) -> bool;

    /// Signs `data`, which is the message itself and no digest of it. An
    /// ECDSA signature is the DER encoding of its two numbers.
    fn sign(&self, data: &[u8]) -> (r: Result<Vec<u8>, SignerError>)
        ensures
            r matches Ok(signature) ==> self.signs(data@, signature@),
    ;

    /// The identifier of the algorithm that `sign` signs with: the
    /// registered one of the signer's scheme and hash.
    fn signature_algorithm(&self) -> (r: Result<AlgorithmIdentifier, SignerError>)
        ensures
            r is Ok ==> registered(self.scheme(), self.hash()) == Some(r.unwrap()@),
    ;

    /// Whether `encoding` is the DER-encoded SubjectPublicKeyInfo of the
    /// signer's public key.
    spec fn has_public_key(&self, encoding: Seq<u8>) -> bool;

    /// The signer's public key, decoded into `context`.
    fn subject_public_key_info<'b>(&self, context: &'b Context) -> (r: Result<
        SubjectPublicKeyInfo<'b>,
        SignerError,
    >)
        ensures
            r matches Ok(info) ==> self.has_public_key(info.encoding()),
    ;
}

/// The signature of a certificate, once the signer has answered: the
/// signer's failure wrapped, or the signature stored in the context, or an
/// encoding error where the signature is too long for a bit string.
pub fn signature_of<'a>(context: &'a Context, answer: Result<Vec<u8>, SignerError>) -> (r: Result<
    &'a [u8],
    X509Error,
>)
    ensures
        match answer {
            Err(cause) => r == Err::<&[u8], X509Error>(X509Error::ErrorSigning(cause)),
            Ok(bytes) => if bytes@.len() <= MAX_DER_LENGTH {
                r is Ok && r.unwrap()@ == bytes@
            } else {
                r is Err && r.unwrap_err() is DERError
            },
        },
{
    match answer {
        Err(cause) => Err(X509Error::ErrorSigning(cause)),
        Ok(bytes) => {
            let stored = context.with_reference(bytes.as_slice());
            match bit_string(stored) {
                Ok(signature) => Ok(signature),
                Err(e) => Err(X509Error::DERError(e)),
            }
        },
    }
}

/// The certificate, once the signer has named its algorithm: the signer's
/// failure wrapped, or the to-be-signed part with the algorithm and the
/// signature.
pub fn certificate_of<'a>(
    tbs_certificate: &TbsCertificate<'a>,
    signature: &'a [u8],
    answer: Result<AlgorithmIdentifier, SignerError>,
) -> (r: Result<Certificate<'a>, X509Error>)
    ensures
        match answer {
            Err(cause) => r == Err::<Certificate<'a>, X509Error>(X509Error::ErrorSigning(cause)),
            Ok(algorithm) => r is Ok && r.unwrap()@ == (CertificateView {
                tbs_certificate: tbs_certificate@,
                signature_algorithm: algorithm@,
                signature: signature@,
            }),
        },
{
    match answer {
        Err(cause) => Err(X509Error::ErrorSigning(cause)),
        Ok(signature_algorithm) => Ok(
            Certificate { tbs_certificate: tbs_certificate.clone(), signature_algorithm, signature },
        ),
    }
}

/// Values that a [`Signer`] can sign into something else.
pub trait Signable<'a> {
    type Output;

    /// Signs the value with `signer`.
    fn sign<S: Signer>(&self, context: &'a Context, signer: &S) -> (r: Result<
        Self::Output,
        X509Error,
    >);
}

impl<'a> Signable<'a> for TbsCertificate<'a> {
    type Output = Certificate<'a>;

    /// Encodes the to-be-signed certificate, has the signer sign the
    /// encoding, asks the signer for its algorithm and puts the three
    /// together: the signature of the certificate is one that the signer gave
    /// for the encoding. The first failure ends it: an encoding error before the
    /// signer is asked, the signer's failure wrapped as `ErrorSigning`.
    fn sign<S: Signer>(&self, context: &'a Context, signer: &S) -> (r: Result<
        Certificate<'a>,
        X509Error,
    >)
        ensures
            self@.der() is None ==> r is Err && r.unwrap_err() is DERError,
            r is Err ==> r.unwrap_err() is DERError || r.unwrap_err() is ErrorSigning,
            r is Ok ==> ({
                let certificate = r.unwrap()@;
                &&& certificate.tbs_certificate == self@
                &&& Some(certificate.signature_algorithm) == registered(
                    signer.scheme(),
                    signer.hash(),
                )
                &&& certificate.signature.len() <= MAX_DER_LENGTH
                &&& self@.der() matches Some(encoding) && signer.signs(
                    encoding,
                    certificate.signature,
                )
            }),
    {
        let bytes = match self.to_der() {
            Ok(bytes) => bytes,
            Err(e) => { return Err(e); },
        };
        let signature = match signature_of(context, signer.sign(bytes.as_slice())) {
            Ok(signature) => signature,
            Err(e) => { return Err(e); },
        };
        certificate_of(self, signature, signer.signature_algorithm())
    }
}

/// The encoding of a certificate to be signed depends on nothing but its
/// fields: two that stand for the same fields have the same encoding, or both
/// have none.
pub proof fn lemma_same_fields_same_encoding(a: TbsCertificate<'_>, b: TbsCertificate<'_>)
    requires
        a@ == b@,
    ensures
        a@.der() == b@.der(),
{
}

} // verus!

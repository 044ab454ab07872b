//! Error values of the encoders, the signers and the certificate assembler.

use vstd::prelude::*;
use vstd::string::*;

verus! {

/// `der::Error`: why a value could not be DER encoded or decoded.
#[verifier::external_type_specification]
#[verifier::external_body]
pub struct ExDerError(der::Error);

/// `spki::Error`: why a public key could not be encoded or decoded.
#[verifier::external_type_specification]
#[verifier::external_body]
pub struct ExSpkiError(spki::Error);

/// `pkcs8::Error`: why a private key could not be encoded or decoded.
#[verifier::external_type_specification]
#[verifier::external_body]
pub struct ExPkcs8Error(pkcs8::Error);

/// `rsa::errors::Error`: why an RSA operation failed.
#[verifier::external_type_specification]
#[verifier::external_body]
pub struct ExRsaError(rsa::errors::Error);

/// Why a signer could not sign, name its algorithm or hand out its public key.
#[derive(Debug)]
pub enum SignerError {
    /// The public key could not be encoded as a SubjectPublicKeyInfo.
    Spki(spki::Error),
    /// A private key could not be read from or written as PKCS#8.
    Pkcs8(pkcs8::Error),
    /// The RSA operation failed.
    Rsa(rsa::errors::Error),
    /// The RSA operation failed inside the RSA arithmetic, which mostly means
    /// that the key is too small for the chosen hash.
    RsaInternal(rsa::errors::Error),
    /// An encoder of this library failed on the signer's behalf.
    X509Util(Box<X509Error>),
    /// A failure of a signer that lives outside this library, in its own words.
    Other(String),
}

/// Why a certificate, or one of its fields, could not be built.
#[derive(Debug)]
pub enum X509Error {
    /// A key-usage extension was asked for with no usage in it.
    FailedEncodingFlagset,
    /// Signing failed without a cause.
    FailedSigning,
    /// The signer failed; its own error is attached.
    ErrorSigning(SignerError),
    /// A value could not be DER encoded or decoded.
    DERError(der::Error),
    /// The start of the validity period is outside both time encodings.
    FailedBuildingNotBefore,
    /// The end of the validity period is outside both time encodings.
    FailedBuildingNotAfter,
}

/// The `Display` text of a `der::Error`.
#[verifier::external_body]
fn der_error_text(e: &der::Error) -> String {
    format!("{}", e)
}

/// The `Display` text of a `spki::Error`.
#[verifier::external_body]
fn spki_error_text(e: &spki::Error) -> String {
    format!("{}", e)
}

/// The `Display` text of a `pkcs8::Error`.
#[verifier::external_body]
fn pkcs8_error_text(e: &pkcs8::Error) -> String {
    format!("{}", e)
}

/// The `Display` text of a `rsa::errors::Error`.
#[verifier::external_body]
fn rsa_error_text(e: &rsa::errors::Error) -> String {
    format!("{}", e)
}

impl SignerError {
    /// The fixed part of the message of each error: all of it for
    /// `RsaInternal`, nothing for `Other`; the messages of the rest go on
    /// with the text of the error inside.
    pub open spec fn message_head(&self) -> Seq<char> {
        match self {
            SignerError::Spki(_) => "SPKI error: "@,
            SignerError::Pkcs8(_) => "PKCS8 error: "@,
            SignerError::Rsa(_) => "RSA error: "@,
            SignerError::RsaInternal(_) =>
                "RSA internal error. This is usually because you have selected an RSA key size too small for the hash mode."@,
            SignerError::X509Util(_) => "x509-util error: "@,
            SignerError::Other(_) => Seq::empty(),
        }
    }

    /// The message of this error.
    pub fn message(&self) -> (text: String)
        ensures
            self.message_head().is_prefix_of(text@),
            self is RsaInternal ==> text@ == self.message_head(),
            self matches SignerError::Other(cause) ==> text@ == cause@,
            self matches SignerError::X509Util(cause) ==> cause.message_head().is_prefix_of(
                text@.skip(self.message_head().len() as int),
            ),
    {
        match self {
            SignerError::Spki(e) => {
                let mut text = "SPKI error: ".to_string();
                text.append(spki_error_text(e).as_str());
                text
            },
            SignerError::Pkcs8(e) => {
                let mut text = "PKCS8 error: ".to_string();
                text.append(pkcs8_error_text(e).as_str());
                text
            },
            SignerError::Rsa(e) => {
                let mut text = "RSA error: ".to_string();
                text.append(rsa_error_text(e).as_str());
                text
            },
            SignerError::RsaInternal(_) =>
                "RSA internal error. This is usually because you have selected an RSA key size too small for the hash mode.".to_string(),
            SignerError::X509Util(e) => {
                let mut text = "x509-util error: ".to_string();
                let cause = x509_error_message(e);
                text.append(cause.as_str());
                assert(text@.skip("x509-util error: "@.len() as int) =~= cause@);
                text
            },
            SignerError::Other(cause) => cause.clone(),
        }
    }
}

/// The message of an error of this library.
fn x509_error_message(e: &X509Error) -> (text: String)
    ensures
        e.message_head().is_prefix_of(text@),
        !(e is DERError) ==> text@ == e.message_head(),
{
    match e {
        X509Error::FailedEncodingFlagset => "Failed encoding flagset".to_string(),
        X509Error::FailedSigning => "Failed signing".to_string(),
        X509Error::ErrorSigning(_) => "Error while signing".to_string(),
        X509Error::DERError(e) => {
            let mut text = "Error DER encoding: `".to_string();
            let cause = der_error_text(e);
            text.append(cause.as_str());
            text.append("`");
            text
        },
        X509Error::FailedBuildingNotBefore => "Failed building valifity not_before".to_string(),
        X509Error::FailedBuildingNotAfter => "Failed building valifity not_after".to_string(),
    }
}

impl X509Error {
    /// The fixed part of the message of each error: all of it, but for
    /// `DERError`, whose message goes on with the DER error's own text.
    pub open spec fn message_head(&self) -> Seq<char> {
        match self {
            X509Error::FailedEncodingFlagset => "Failed encoding flagset"@,
            X509Error::FailedSigning => "Failed signing"@,
            X509Error::ErrorSigning(_) => "Error while signing"@,
            X509Error::DERError(_) => "Error DER encoding: `"@,
            X509Error::FailedBuildingNotBefore => "Failed building valifity not_before"@,
            X509Error::FailedBuildingNotAfter => "Failed building valifity not_after"@,
        }
    }

    /// The message of this error.
    pub fn message(&self) -> (text: String)
        ensures
            self.message_head().is_prefix_of(text@),
            !(self is DERError) ==> text@ == self.message_head(),
    {
        x509_error_message(self)
    }
}

impl From<der::Error> for X509Error {
    fn from(e: der::Error) -> (r: Self) {
        X509Error::DERError(e)
    }
}

impl vstd::std_specs::convert::FromSpecImpl<der::Error> for X509Error {
    open spec fn obeys_from_spec() -> bool {
        true
    }

    open spec fn from_spec(e: der::Error) -> Self {
        X509Error::DERError(e)
    }
}

} // verus!

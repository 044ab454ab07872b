//! What a caller chooses when asking for a certificate.

use vstd::prelude::*;
use vstd::string::*;

pub mod ecdsa;
pub mod rsa;
pub mod usage;

pub use self::ecdsa::EcdsaCurve;
pub use self::rsa::{RSAKeySize, RSASigningMode};
pub use self::usage::KeyUsage;

use crate::owned_name::OwnedName;

verus! {

/// Where the signing key comes from: a file to read it from, or a file to
/// write a fresh key to. One of the two is given.
#[derive(Debug)]
pub struct KeySelector {
    /// Create a new key at the given path.
    pub new_key: Option<String>,
    /// Use the existing key at the given path.
    pub key: Option<String>,
}

/// What a [`KeySelector`] asks for.
#[derive(Debug, Clone, Copy, PartialEq, Eq, Structural)]
pub enum KeyRequest {
    /// Read the key from the file at `key`.
    Existing,
    /// Make a fresh key and write it to the file at `new_key`.
    New,
    /// Neither was given.
    Missing,
}

impl KeySelector {
    /// What the selector asks for: an existing key where one is named, also
    /// where a place for a new key is named beside it.
    pub open spec fn spec_request(&self) -> KeyRequest {
        if self.key is Some {
            KeyRequest::Existing
        } else if self.new_key is Some {
            KeyRequest::New
        } else {
            KeyRequest::Missing
        }
    }

    /// What the selector asks for.
    #[verifier::when_used_as_spec(spec_request)]
    pub fn request(&self) -> (r: KeyRequest)
        ensures
            r == self.spec_request(),
    {
        if self.key.is_some() {
            KeyRequest::Existing
        } else if self.new_key.is_some() {
            KeyRequest::New
        } else {
            KeyRequest::Missing
        }
    }
}

/// The key that a signer is to be made with.
pub enum KeyInput<T> {
    /// The contents of the file of an existing key.
    Existing(T),
    /// A fresh key is to be made.
    New,
    /// No key was asked for.
    Missing,
}

/// A signer, and the key to write to the file of the new key where the
/// signer's key is fresh.
pub struct Obtained<S> {
    pub signer: S,
    pub new_key: Option<Vec<u8>>,
}

impl<S> Obtained<S> {
    /// The bytes of the key to write, where there is one.
    pub open spec fn new_key_bytes(&self) -> Option<Seq<u8>> {
        match self.new_key {
            Some(key) => Some(key@),
            None => None,
        }
    }
}

/// Why no signer could be made.
#[derive(Debug)]
pub enum GetSignerError {
    /// The key could not be read, made or encoded.
    Signer(crate::error::SignerError),
    /// Neither an existing key nor a place for a new one was named.
    MissingKey,
}

impl GetSignerError {
    /// The message of this error.
    pub fn message(&self) -> (text: String)
        ensures
            self is MissingKey ==> text@ == "This should never happen, this is a bug"@,
            self matches GetSignerError::Signer(cause) ==> cause.message_head().is_prefix_of(
                text@,
            ),
    {
        match self {
            GetSignerError::Signer(cause) => cause.message(),
            GetSignerError::MissingKey => "This should never happen, this is a bug".to_string(),
        }
    }
}

/// The validity period that a caller asks for, in milliseconds since
/// 1970-01-01T00:00:00Z.
#[derive(Debug, Clone, Copy, PartialEq, Eq, Structural)]
pub struct Validity {
    pub not_before: i64,
    pub not_after: i64,
}

/// What a caller asks of a certificate that is signed with its own key.
#[derive(Debug)]
pub struct SigningArgs {
    /// The file that the certificate is written to; without one it is
    /// printed.
    pub output: Option<String>,
    pub key: KeySelector,
    pub validity: Validity,
    /// The subject, which is the issuer too.
    pub name: OwnedName,
    pub ca: bool,
    pub ca_pathlen: Option<u8>,
    /// The key usages; without any, the certificate has no key-usage
    /// extension.
    pub usages: Option<Vec<KeyUsage>>,
}

/// The keys that a certificate can be signed with.
#[derive(Debug)]
pub enum SelfSignVariants {
    Rsa { size: RSAKeySize, mode: RSASigningMode, hash_mode: Option<HashMode>, signing_args: SigningArgs },
    Ecdsa { curve: EcdsaCurve, signing_args: SigningArgs },
}

/// What the program is asked to do.
#[derive(Debug)]
pub enum Commands {
    /// Write the shell completions.
    Generate,
    /// Make a certificate that is signed with its own key.
    SelfSign { command: SelfSignVariants },
    /// Sign a certificate with another key.
    Sign,
}

/// The command line.
#[derive(Debug)]
pub struct Cli {
    pub command: Commands,
}

/// The hash that a signature is made over.
#[derive(Debug, Clone, Copy, PartialEq, Eq, Structural)]
pub enum HashMode {
    SHA256,
    SHA384,
    SHA512,
}

} // verus!

//! The public key of a certificate's subject, and the key identifier that is
//! derived from it.

use der::Decode;
use sha1::{Digest, Sha1};
use vstd::prelude::*;

use crate::context::Context;
use crate::error::X509Error;

verus! {

/// The bytes of the `subjectPublicKey` bit string of the
/// SubjectPublicKeyInfo that `der` is the DER encoding of. `None` where `der`
/// is no such encoding, or where the bit string does not end on a byte.
pub uninterp spec fn spki_key_bits(der: Seq<u8>) -> Option<Seq<u8>>;

/// The SHA-1 digest of `data`.
pub uninterp spec fn sha1_digest(data: Seq<u8>) -> Seq<u8>;

/// The length of a key identifier, which is that of a SHA-1 digest.
pub const KEY_IDENTIFIER_LEN: usize = 20;

/// `spki::SubjectPublicKeyInfo::from_der`, of which the public key's bytes are
/// handed on: they are a part of `der`.
#[verifier::external_body]
fn decode_subject_public_key<'a>(der: &'a [u8]) -> (r: Result<&'a [u8], der::Error>)
    ensures
        match r {
            Ok(key) => spki_key_bits(der@) == Some(key@),
            Err(_) => spki_key_bits(der@) is None,
        },
{
    spki::SubjectPublicKeyInfo::from_der(der).map(|info| info.subject_public_key)
}

/// `sha1::Sha1`: the digest of `data`, made with `new`, `update` and
/// `finalize`. It has 20 bytes.
#[verifier::external_body]
fn sha1(data: &[u8]) -> (digest: Vec<u8>)
    ensures
        digest@ == sha1_digest(data@),
        digest@.len() == KEY_IDENTIFIER_LEN,
{
    let mut hasher = Sha1::new();
    hasher.update(data);
    hasher.finalize().to_vec()
}

/// A decoded SubjectPublicKeyInfo. Its bytes live in a [`Context`].
#[derive(Debug, Clone, Copy)]
pub struct SubjectPublicKeyInfo<'a> {
    der: &'a [u8],
    subject_public_key: &'a [u8],
}

impl<'a> SubjectPublicKeyInfo<'a> {
    #[verifier::type_invariant]
    spec fn consistent(self) -> bool {
        spki_key_bits(self.der@) == Some(self.subject_public_key@)
    }

    /// The DER encoding that the value was decoded from.
    pub closed spec fn encoding(self) -> Seq<u8> {
        self.der@
    }

    /// The bytes of the public key.
    pub closed spec fn key_bits(self) -> Seq<u8> {
        self.subject_public_key@
    }

    /// Decodes a DER-encoded SubjectPublicKeyInfo, of which a copy is kept in
    /// `context`.
    pub fn from_der(context: &'a Context, bytes: &[u8]) -> (r: Result<
        SubjectPublicKeyInfo<'a>,
        X509Error,
    >)
        ensures
            match r {
                Ok(info) => info.encoding() == bytes@ && spki_key_bits(bytes@) == Some(
                    info.key_bits(),
                ),
                Err(e) => spki_key_bits(bytes@) is None && e is DERError,
            },
    {
        let der = context.with_reference(bytes);
        match decode_subject_public_key(der) {
            Ok(subject_public_key) => Ok(SubjectPublicKeyInfo { der, subject_public_key }),
            Err(e) => Err(X509Error::DERError(e)),
        }
    }

    /// The DER encoding that the value was decoded from.
    pub fn as_der(&self) -> (der: &'a [u8])
        ensures
            der@ == self.encoding(),
            spki_key_bits(der@) == Some(self.key_bits()),
    {
        proof {
            use_type_invariant(self);
        }
        self.der
    }

    /// The bytes of the public key.
    pub fn subject_public_key(&self) -> (key: &'a [u8])
        ensures
            key@ == self.key_bits(),
    {
        self.subject_public_key
    }

    /// The key identifier of a public key: the SHA-1 digest of the key's
    /// bytes, not of the whole SubjectPublicKeyInfo.
    pub open spec fn key_identifier(self) -> Seq<u8> {
        sha1_digest(self.key_bits())
    }

    /// Computes the key identifier of a public key.
    pub fn as_key_identifier(subjpubkey: SubjectPublicKeyInfo<'_>) -> (ident: Vec<u8>)
        ensures
            ident@ == subjpubkey.key_identifier(),
            ident@.len() == KEY_IDENTIFIER_LEN,
    {
        sha1(subjpubkey.subject_public_key)
    }
}

/// The key identifier depends on nothing but the bytes of the key: two values
/// with the same key have the same identifier.
pub proof fn lemma_key_identifier_of_key_bits(a: SubjectPublicKeyInfo<'_>, b: SubjectPublicKeyInfo<'_>)
    requires
        a.key_bits() == b.key_bits(),
    ensures
        a.key_identifier() == b.key_identifier(),
{
}

} // verus!

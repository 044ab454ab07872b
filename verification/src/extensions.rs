//! The version 3 extensions that this library produces: basic constraints,
//! key usage, and the subject's and the authority's key identifier.

use der::asn1::OctetStringRef;
use der::Encode;
use flagset::FlagSet;
use vstd::prelude::*;
use x509_cert::ext::pkix::{
    AuthorityKeyIdentifier, BasicConstraints, KeyUsages, SubjectKeyIdentifier,
};

use crate::context::Context;
use crate::encoding::der_outcome;
use crate::error::X509Error;
use crate::subject_public_key_info::SubjectPublicKeyInfo;

verus! {

/// `x509_cert::ext::pkix::KeyUsages`: the nine key usages of RFC 5280, by
/// their names.
#[verifier::external_type_specification]
pub struct ExKeyUsages(x509_cert::ext::pkix::KeyUsages);

/// The object identifier of an extension.
#[derive(Debug, Clone, Copy, PartialEq, Eq, Structural)]
pub enum ExtensionId {
    /// id-ce-basicConstraints, 2.5.29.19.
    BasicConstraints,
    /// id-ce-keyUsage, 2.5.29.15.
    KeyUsage,
    /// id-ce-subjectKeyIdentifier, 2.5.29.14.
    SubjectKeyIdentifier,
    /// id-ce-authorityKeyIdentifier, 2.5.29.35.
    AuthorityKeyIdentifier,
}

/// An extension: its identifier, whether it is critical, and the DER encoding
/// of its value, which lives in a [`Context`].
#[derive(Debug, Clone, Copy)]
pub struct Extension<'a> {
    pub extn_id: ExtensionId,
    pub critical: bool,
    pub extn_value: &'a [u8],
}

/// What an [`Extension`] stands for.
pub struct ExtensionView {
    pub extn_id: ExtensionId,
    pub critical: bool,
    pub extn_value: Seq<u8>,
}

impl<'a> View for Extension<'a> {
    type V = ExtensionView;

    open spec fn view(&self) -> ExtensionView {
        ExtensionView {
            extn_id: self.extn_id,
            critical: self.critical,
            extn_value: self.extn_value@,
        }
    }
}

/// The DER encoding of the BasicConstraints value with the given fields.
/// `None` where the encoder fails.
pub uninterp spec fn basic_constraints_der(ca: bool, path_len_constraint: Option<u8>) -> Option<
    Seq<u8>,
>;

/// The DER encoding, a bit string, of the key usages whose bits are set in
/// `mask`; bits that stand for no usage count as not set. `None` where the
/// encoder fails.
pub uninterp spec fn key_usage_der(mask: u16) -> Option<Seq<u8>>;

/// The DER encoding of the SubjectKeyIdentifier value that holds `ident`.
/// `None` where the encoder fails.
pub uninterp spec fn subject_key_identifier_der(ident: Seq<u8>) -> Option<Seq<u8>>;

/// The DER encoding of the AuthorityKeyIdentifier value that holds `ident` as
/// its key identifier, and neither the issuer's name nor a serial number.
/// `None` where the encoder fails.
pub uninterp spec fn authority_key_identifier_der(ident: Seq<u8>) -> Option<Seq<u8>>;

/// `der::Encode::to_vec` on `x509_cert::ext::pkix::BasicConstraints`.
#[verifier::external_body]
fn encode_basic_constraints(ca: bool, path_len_constraint: Option<u8>) -> (r: Result<
    Vec<u8>,
    der::Error,
>)
    ensures
        der_outcome(r, basic_constraints_der(ca, path_len_constraint)),
{
    BasicConstraints { ca, path_len_constraint }.to_vec()
}

/// `flagset::FlagSet::bits` on the set that `FlagSet::from` makes of one
/// usage: the bit that `x509_cert` gives the usage, which is the bit with the
/// number that RFC 5280 gives it.
#[verifier::external_body]
fn key_usage_bits(usage: KeyUsages) -> (bits: u16)
    ensures
        bits == usage_bit(usage),
{
    FlagSet::from(usage).bits()
}

/// `der::Encode::to_vec` on the `FlagSet` of key usages that
/// `FlagSet::new_truncated` makes of `mask`.
#[verifier::external_body]
fn encode_key_usage(mask: u16) -> (r: Result<Vec<u8>, der::Error>)
    ensures
        der_outcome(r, key_usage_der(mask)),
{
    FlagSet::<KeyUsages>::new_truncated(mask).to_vec()
}

/// `der::Encode::to_vec` on the `x509_cert::ext::pkix::SubjectKeyIdentifier`
/// that holds the octet string `OctetStringRef::new(ident)`.
#[verifier::external_body]
fn encode_subject_key_identifier(ident: &[u8]) -> (r: Result<Vec<u8>, der::Error>)
    ensures
        der_outcome(r, subject_key_identifier_der(ident@)),
{
    SubjectKeyIdentifier(OctetStringRef::new(ident)?).to_vec()
}

/// `der::Encode::to_vec` on the `x509_cert::ext::pkix::AuthorityKeyIdentifier`
/// whose key identifier is the octet string `OctetStringRef::new(ident)` and
/// whose other fields are absent.
#[verifier::external_body]
fn encode_authority_key_identifier(ident: &[u8]) -> (r: Result<Vec<u8>, der::Error>)
    ensures
        der_outcome(r, authority_key_identifier_der(ident@)),
{
    AuthorityKeyIdentifier {
        key_identifier: Some(OctetStringRef::new(ident)?),
        authority_cert_issuer: None,
        authority_cert_serial_number: None,
    }.to_vec()
}

/// The bit of a key usage in the usage mask: bit `n` for the usage that
/// RFC 5280 numbers `n`.
pub open spec fn usage_bit(usage: KeyUsages) -> u16 {
    match usage {
        KeyUsages::DigitalSignature => 0x001,
        KeyUsages::NonRepudiation => 0x002,
        KeyUsages::KeyEncipherment => 0x004,
        KeyUsages::DataEncipherment => 0x008,
        KeyUsages::KeyAgreement => 0x010,
        KeyUsages::KeyCertSign => 0x020,
        KeyUsages::CRLSign => 0x040,
        KeyUsages::EncipherOnly => 0x080,
        KeyUsages::DecipherOnly => 0x100,
    }
}

/// The usage mask of a list of usages: the bits of all of them.
pub open spec fn usage_mask(usages: Seq<KeyUsages>) -> u16
    decreases usages.len(),
{
    if usages.len() == 0 {
        0
    } else {
        usage_mask(usages.drop_last()) | usage_bit(usages.last())
    }
}

/// All the bits that stand for a key usage.
pub const ALL_USAGES: u16 = 0x1ff;

/// Every usage has one bit of its own among those of [`ALL_USAGES`].
pub proof fn lemma_usage_bit_distinct(a: KeyUsages, b: KeyUsages)
    ensures
        usage_bit(a) != 0,
        usage_bit(a) & !ALL_USAGES == 0,
        a == b ==> usage_bit(a) & usage_bit(b) == usage_bit(a),
        a != b ==> usage_bit(a) & usage_bit(b) == 0,
{
    let x = usage_bit(a);
    let y = usage_bit(b);
    assert(x == 0x001 || x == 0x002 || x == 0x004 || x == 0x008 || x == 0x010 || x == 0x020 || x
        == 0x040 || x == 0x080 || x == 0x100);
    assert(y == 0x001 || y == 0x002 || y == 0x004 || y == 0x008 || y == 0x010 || y == 0x020 || y
        == 0x040 || y == 0x080 || y == 0x100);
    assert(a != b ==> x != y);
    assert((x == 0x001 || x == 0x002 || x == 0x004 || x == 0x008 || x == 0x010 || x == 0x020 || x
        == 0x040 || x == 0x080 || x == 0x100) ==> x & !0x1ffu16 == 0 && x & x == x) by (bit_vector);
    assert((x == 0x001 || x == 0x002 || x == 0x004 || x == 0x008 || x == 0x010 || x == 0x020 || x
        == 0x040 || x == 0x080 || x == 0x100) && (y == 0x001 || y == 0x002 || y == 0x004 || y
        == 0x008 || y == 0x010 || y == 0x020 || y == 0x040 || y == 0x080 || y == 0x100) && x != y
        ==> x & y == 0) by (bit_vector);
}

/// The usage mask of a list has exactly the bits of the usages in the list:
/// the bit of a usage is set if and only if the usage is in the list, and no
/// bit is set that stands for no usage.
pub proof fn lemma_usage_mask_exact(usages: Seq<KeyUsages>, flag: KeyUsages)
    ensures
        usage_mask(usages) & usage_bit(flag) != 0 <==> usages.contains(flag),
        usage_mask(usages) & !ALL_USAGES == 0,
    decreases usages.len(),
{
    let b = usage_bit(flag);
    if usages.len() == 0 {
        assert(0u16 & b == 0 && 0u16 & !0x1ffu16 == 0) by (bit_vector);
    } else {
        let rest = usages.drop_last();
        let last = usages.last();
        let m = usage_mask(rest);
        let c = usage_bit(last);
        lemma_usage_mask_exact(rest, flag);
        lemma_usage_bit_distinct(last, flag);
        assert((m | c) & b == (m & b) | (c & b)) by (bit_vector);
        assert((m & b) | (c & b) != 0 <==> m & b != 0 || c & b != 0) by (bit_vector);
        assert(m & !0x1ffu16 == 0 && c & !0x1ffu16 == 0 ==> (m | c) & !0x1ffu16 == 0)
            by (bit_vector);
        assert(usages.contains(flag) <==> rest.contains(flag) || last == flag) by {
            assert(usages == rest.push(last));
            if rest.contains(flag) {
                let i = choose|i: int| 0 <= i < rest.len() && rest[i] == flag;
                assert(usages[i] == flag);
            }
            if last == flag {
                assert(usages[usages.len() - 1] == flag);
            }
        }
    }
}

/// The usage mask of a list that is not empty is not zero.
pub proof fn lemma_usage_mask_nonzero(usages: Seq<KeyUsages>)
    requires
        usages.len() > 0,
    ensures
        usage_mask(usages) != 0,
{
    let flag = usages[0];
    lemma_usage_mask_exact(usages, flag);
    let m = usage_mask(usages);
    let b = usage_bit(flag);
    assert(m & b != 0 ==> m != 0) by (bit_vector);
}

/// An extension `r` has the given identifier and criticality and the expected
/// value, or it is a `DERError` where no value is expected.
pub open spec fn extension_is(
    r: Result<Extension<'_>, X509Error>,
    extn_id: ExtensionId,
    critical: bool,
    expected: Option<Seq<u8>>,
) -> bool {
    match r {
        Ok(ext) => ext.extn_id == extn_id && ext.critical == critical && expected == Some(
            ext.extn_value@,
        ),
        Err(e) => expected is None && e is DERError,
    }
}

/// Stores an encoded value in the context and wraps it as an extension.
fn finish<'a>(
    context: &'a Context,
    extn_id: ExtensionId,
    critical: bool,
    encoded: Result<Vec<u8>, der::Error>,
) -> (r: Result<Extension<'a>, X509Error>)
    ensures
        forall|expected: Option<Seq<u8>>|
            der_outcome(encoded, expected) ==> extension_is(r, extn_id, critical, expected),
{
    match encoded {
        Ok(bytes) => Ok(
            Extension { extn_id, critical, extn_value: context.with_reference(bytes.as_slice()) },
        ),
        Err(e) => Err(X509Error::DERError(e)),
    }
}

/// The builders of the extensions.
pub struct Extensions;

impl Extensions {
    /// The basic-constraints extension: whether the subject is a certificate
    /// authority and, if given, how long a chain below it may be.
    pub fn basic_constraints<'a>(
        context: &'a Context,
        critical: bool,
        ca: bool,
        path_len_constraint: Option<u8>,
    ) -> (r: Result<Extension<'a>, X509Error>)
        ensures
            extension_is(
                r,
                ExtensionId::BasicConstraints,
                critical,
                basic_constraints_der(ca, path_len_constraint),
            ),
    {
        finish(
            context,
            ExtensionId::BasicConstraints,
            critical,
            encode_basic_constraints(ca, path_len_constraint),
        )
    }

    /// The key-usage extension for a list of usages, which must not be empty:
    /// its value is the bit string of the usage mask of the list.
    pub fn key_usage<'a>(context: &'a Context, critical: bool, usages: &[KeyUsages]) -> (r: Result<
        Extension<'a>,
        X509Error,
    >)
        ensures
            usages@.len() == 0 ==> r is Err && r.unwrap_err() is FailedEncodingFlagset,
            usages@.len() > 0 ==> extension_is(
                r,
                ExtensionId::KeyUsage,
                critical,
                key_usage_der(usage_mask(usages@)),
            ),
    {
        if usages.len() == 0 {
            return Err(X509Error::FailedEncodingFlagset);
        }
        let mut mask: u16 = 0;
        let mut i: usize = 0;
        while i < usages.len()
            invariant
                i <= usages.len(),
                mask == usage_mask(usages@.take(i as int)),
            decreases usages.len() - i,
        {
            proof {
                assert(usages@.take(i + 1).drop_last() == usages@.take(i as int));
            }
            mask = mask | key_usage_bits(usages[i]);
            i = i + 1;
        }
        proof {
            assert(usages@.take(i as int) == usages@);
        }
        finish(context, ExtensionId::KeyUsage, critical, encode_key_usage(mask))
    }

    /// The subject-key-identifier extension for a public key.
    pub fn subject_key_identifier<'a>(
        context: &'a Context,
        critical: bool,
        pubkey_info: SubjectPublicKeyInfo<'_>,
    ) -> (r: Result<Extension<'a>, X509Error>)
        ensures
            extension_is(
                r,
                ExtensionId::SubjectKeyIdentifier,
                critical,
                subject_key_identifier_der(pubkey_info.key_identifier()),
            ),
    {
        let ident = SubjectPublicKeyInfo::as_key_identifier(pubkey_info);
        finish(
            context,
            ExtensionId::SubjectKeyIdentifier,
            critical,
            encode_subject_key_identifier(ident.as_slice()),
        )
    }

    /// The authority-key-identifier extension for the issuer's public key. It
    /// holds the key identifier alone.
    pub fn authority_key_identifier<'a>(
        context: &'a Context,
        critical: bool,
        pubkey_info: SubjectPublicKeyInfo<'_>,
    ) -> (r: Result<Extension<'a>, X509Error>)
        ensures
            extension_is(
                r,
                ExtensionId::AuthorityKeyIdentifier,
                critical,
                authority_key_identifier_der(pubkey_info.key_identifier()),
            ),
    {
        let ident = SubjectPublicKeyInfo::as_key_identifier(pubkey_info);
        finish(
            context,
            ExtensionId::AuthorityKeyIdentifier,
            critical,
            encode_authority_key_identifier(ident.as_slice()),
        )
    }
}

} // verus!

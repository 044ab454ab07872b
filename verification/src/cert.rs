//! Certificates that are signed with their own key.

use core::ops::Range;
use vstd::prelude::*;
use x509_cert::ext::pkix::KeyUsages;
use x509_cert::Version;

use crate::algorithm_identifier::{registered, AlgorithmIdentifier};
use crate::cli::{KeyUsage, SigningArgs};
use crate::context::Context;
use crate::error::{SignerError, X509Error};
use crate::extensions::{
    authority_key_identifier_der, basic_constraints_der, key_usage_der,
    subject_key_identifier_der, usage_mask, Extension, ExtensionId, ExtensionView, Extensions,
};
use crate::name::{rdns_of, values_fit, Name};
use crate::random_serial;
use crate::serial::SerialNumber;
use crate::signer::{
    extension_views, Certificate, Signable, Signer, TbsCertificate, TbsCertificateView,
};
use crate::subject_public_key_info::{sha1_digest, spki_key_bits, SubjectPublicKeyInfo};
use crate::validity::Validity;

verus! {

/// Why no self-signed certificate could be made.
#[derive(Debug)]
pub enum SelfSignError {
    /// A field could not be built or encoded, or signing failed.
    X509(X509Error),
    /// The signer could not hand out its public key or name its algorithm.
    Signer(SignerError),
}

impl SelfSignError {
    /// The message of this error: that of the error inside.
    pub fn message(&self) -> (text: String)
        ensures
            self matches SelfSignError::X509(cause) ==> cause.message_head().is_prefix_of(text@),
            self matches SelfSignError::Signer(cause) ==> cause.message_head().is_prefix_of(text@),
    {
        match self {
            SelfSignError::X509(cause) => cause.message(),
            SelfSignError::Signer(cause) => cause.message(),
        }
    }
}

/// The flags of a list of usages, in their order.
pub open spec fn usage_flags(usages: Seq<KeyUsage>) -> Seq<KeyUsages> {
    usages.map_values(|u: KeyUsage| u.flag())
}

/// An extension with a value, where there is one.
pub open spec fn with_value(extn_id: ExtensionId, critical: bool, value: Option<Seq<u8>>) -> Option<
    ExtensionView,
> {
    match value {
        Some(extn_value) => Some(ExtensionView { extn_id, critical, extn_value }),
        None => None,
    }
}

/// The extensions of a self-signed certificate for a key with the identifier
/// `key_id`: basic constraints that mark a certificate authority, with the
/// path length asked for, critical where `ca` is asked for; the authority's
/// and the subject's key identifier, both of the one key and not critical;
/// and, where usages are asked for, the critical key usage. `None` where one
/// of them cannot be built.
pub open spec fn self_signed_extensions(
    ca: bool,
    ca_pathlen: Option<u8>,
    usages: Option<Seq<KeyUsage>>,
    key_id: Seq<u8>,
) -> Option<Seq<ExtensionView>> {
    match (
        with_value(ExtensionId::BasicConstraints, ca, basic_constraints_der(true, ca_pathlen)),
        with_value(
            ExtensionId::AuthorityKeyIdentifier,
            false,
            authority_key_identifier_der(key_id),
        ),
        with_value(ExtensionId::SubjectKeyIdentifier, false, subject_key_identifier_der(key_id)),
    ) {
        (Some(constraints), Some(authority), Some(subject)) => match usages {
            None => Some(seq![constraints, authority, subject]),
            Some(usages) => if usages.len() == 0 {
                None
            } else {
                match with_value(
                    ExtensionId::KeyUsage,
                    true,
                    key_usage_der(usage_mask(usage_flags(usages))),
                ) {
                    Some(usage) => Some(seq![constraints, authority, subject, usage]),
                    None => None,
                }
            },
        },
        _ => None,
    }
}

/// What a list of usages, if there is one, stands for.
pub open spec fn usages_view(usages: Option<Vec<KeyUsage>>) -> Option<Seq<KeyUsage>> {
    match usages {
        Some(usages) => Some(usages@),
        None => None,
    }
}

/// The three extensions that do not depend on the usages can be built, and
/// the usages that are asked for are none at all.
pub open spec fn asks_for_no_usage(
    ca_pathlen: Option<u8>,
    usages: Option<Seq<KeyUsage>>,
    key_id: Seq<u8>,
) -> bool {
    &&& basic_constraints_der(true, ca_pathlen) is Some
    &&& authority_key_identifier_der(key_id) is Some
    &&& subject_key_identifier_der(key_id) is Some
    &&& usages matches Some(list) && list.len() == 0
}

/// The flags of a list of usages.
fn to_flags(usages: &Vec<KeyUsage>) -> (flags: Vec<KeyUsages>)
    ensures
        flags@ == usage_flags(usages@),
{
    let mut flags: Vec<KeyUsages> = Vec::with_capacity(usages.len());
    let mut i: usize = 0;
    while i < usages.len()
        invariant
            i <= usages.len(),
            flags@ == usage_flags(usages@.take(i as int)),
        decreases usages.len() - i,
    {
        flags.push(KeyUsages::from(&usages[i]));
        assert(flags@ =~= usage_flags(usages@.take(i + 1)));
        i = i + 1;
    }
    assert(usages@.take(i as int) == usages@);
    flags
}

/// Builds the extensions of a self-signed certificate for the public key
/// `spki`: see [`self_signed_extensions`]. An empty list of usages gives
/// `FailedEncodingFlagset`, if the extensions before it could be built.
pub fn build_extensions<'a>(
    context: &'a Context,
    args: &SigningArgs,
    spki: SubjectPublicKeyInfo<'_>,
) -> (r: Result<Vec<Extension<'a>>, X509Error>)
    ensures
        match r {
            Ok(extensions) => self_signed_extensions(
                args.ca,
                args.ca_pathlen,
                usages_view(args.usages),
                spki.key_identifier(),
            ) == Some(extension_views(extensions@)),
            Err(e) => {
                &&& self_signed_extensions(
                    args.ca,
                    args.ca_pathlen,
                    usages_view(args.usages),
                    spki.key_identifier(),
                ) is None
                &&& if asks_for_no_usage(
                    args.ca_pathlen,
                    usages_view(args.usages),
                    spki.key_identifier(),
                ) {
                    e is FailedEncodingFlagset
                } else {
                    e is DERError
                }
            },
        },
{
    let constraints = match Extensions::basic_constraints(context, args.ca, true, args.ca_pathlen) {
        Ok(e) => e,
        Err(e) => { return Err(e); },
    };
    let authority = match Extensions::authority_key_identifier(context, false, spki) {
        Ok(e) => e,
        Err(e) => { return Err(e); },
    };
    let subject = match Extensions::subject_key_identifier(context, false, spki) {
        Ok(e) => e,
        Err(e) => { return Err(e); },
    };
    let mut extensions: Vec<Extension<'a>> = Vec::with_capacity(4);
    extensions.push(constraints);
    extensions.push(authority);
    extensions.push(subject);
    if let Some(usages) = &args.usages {
        let flags = to_flags(usages);
        let extension = match Extensions::key_usage(context, true, flags.as_slice()) {
            Ok(e) => e,
            Err(e) => { return Err(e); },
        };
        extensions.push(extension);
        assert(extension_views(extensions@) =~= seq![constraints@, authority@, subject@, extension@]);
    } else {
        assert(extension_views(extensions@) =~= seq![constraints@, authority@, subject@]);
    }
    Ok(extensions)
}

/// The to-be-signed part of a self-signed certificate, once the signer has
/// handed out its public key and named its algorithm: version 3, with the
/// name as issuer and as subject.
pub fn build_tbs_certificate<'a>(
    context: &'a Context,
    args: &SigningArgs,
    name: Name<'a>,
    spki: SubjectPublicKeyInfo<'a>,
    extensions: Vec<Extension<'a>>,
    serial_number: SerialNumber<'a>,
    signature: AlgorithmIdentifier,
) -> (r: Result<TbsCertificate<'a>, X509Error>)
    ensures
        match (Validity {
            not_before: args.validity.not_before,
            not_after: args.validity.not_after,
        }).encoded() {
            Ok(validity) => r matches Ok(tbs) && tbs@ == (TbsCertificateView {
                version: Version::V3,
                serial_number: serial_number.magnitude(),
                signature: signature@,
                issuer: name@,
                validity,
                subject: name@,
                subject_public_key_info: spki.encoding(),
                subject_public_key: spki.key_bits(),
                extensions: Some(extension_views(extensions@)),
            }),
            Err(e) => r matches Err(f) && f == e,
        },
{
    let validity: Validity = Validity::from(
        Range { start: args.validity.not_before, end: args.validity.not_after },
    );
    let encoded = match validity.encode() {
        Ok(v) => v,
        Err(e) => { return Err(e); },
    };
    Ok(
        TbsCertificate {
            version: Version::V3,
            serial_number,
            signature,
            issuer: name.clone(),
            validity: encoded,
            subject: name,
            subject_public_key_info: spki,
            extensions: Some(extensions),
        },
    )
}

/// The validity period that a caller asks for.
pub open spec fn asked_validity(args: &SigningArgs) -> Validity {
    Validity { not_before: args.validity.not_before, not_after: args.validity.not_after }
}

/// The usages that a caller asks for are none at all.
pub open spec fn asks_for_empty_usages(args: &SigningArgs) -> bool {
    usages_view(args.usages) matches Some(usages) && usages.len() == 0
}

/// Makes a certificate for the signer's own key, signed with that key: the
/// name of `args` is issuer and subject, and the extensions are those of
/// [`self_signed_extensions`]. The certificate is always that of a
/// certificate authority: `args.ca` says whether the basic constraints are
/// critical, not whether the subject is an authority. That is meant.
///
/// The steps run in this order, and the first failure ends them: the name;
/// the signer's public key; the extensions; the serial number; the signer's
/// algorithm; the validity period; the encoding and the signature.
pub fn self_sign<'a, S: Signer>(context: &'a Context, signer: &S, args: &SigningArgs) -> (r: Result<
    Certificate<'a>,
    SelfSignError,
>)
    ensures
        !values_fit(args.name.pair_bytes()) ==> (r matches Err(SelfSignError::X509(e)) && e
            is DERError),
        asks_for_empty_usages(args) ==> r is Err,
        asks_for_empty_usages(args) ==> (r matches Err(SelfSignError::X509(e)) ==> e is DERError
            || e is FailedEncodingFlagset),
        r matches Err(SelfSignError::X509(e)) ==> (e is FailedEncodingFlagset
            ==> asks_for_empty_usages(args)),
        asked_validity(args).encoded() is Err ==> r is Err,
        asked_validity(args).encoded() matches Err(v) ==> (r matches Err(SelfSignError::X509(e))
            ==> e is DERError || e is FailedEncodingFlagset || e == v),
        r matches Err(SelfSignError::X509(e)) ==> ((e is FailedBuildingNotBefore || e
            is FailedBuildingNotAfter) ==> asked_validity(args).encoded() == Err::<
            crate::time::Validity,
            X509Error,
        >(e)),
        r matches Err(SelfSignError::X509(e)) ==> !(e is FailedSigning),
        r matches Ok(certificate) ==> {
            let tbs = certificate@.tbs_certificate;
            &&& tbs.version == Version::V3
            &&& tbs.issuer == rdns_of(args.name.pair_bytes())
            &&& tbs.subject == tbs.issuer
            &&& Ok::<crate::time::Validity, X509Error>(tbs.validity) == asked_validity(
                args,
            ).encoded()
            &&& 0 < tbs.serial_number.len() <= crate::SERIAL_LEN
            &&& Some(tbs.signature) == registered(signer.scheme(), signer.hash())
            &&& certificate@.signature_algorithm == tbs.signature
            &&& signer.has_public_key(tbs.subject_public_key_info)
            &&& spki_key_bits(tbs.subject_public_key_info) == Some(tbs.subject_public_key)
            &&& tbs.extensions matches Some(extensions) && self_signed_extensions(
                args.ca,
                args.ca_pathlen,
                usages_view(args.usages),
                sha1_digest(tbs.subject_public_key),
            ) == Some(extensions)
            &&& tbs.der() matches Some(encoding) && signer.signs(encoding, certificate@.signature)
        },
{
    let name = match args.name.to_x509_name(context) {
        Ok(name) => name,
        Err(e) => { return Err(SelfSignError::X509(e)); },
    };
    let spki = match signer.subject_public_key_info(context) {
        Ok(spki) => spki,
        Err(e) => { return Err(SelfSignError::Signer(e)); },
    };
    let spki_der = spki.as_der();
    assert(spki_key_bits(spki_der@) == Some(spki.key_bits()));
    let extensions = match build_extensions(context, args, spki) {
        Ok(extensions) => extensions,
        Err(e) => { return Err(SelfSignError::X509(e)); },
    };
    let serial_number = match random_serial(context) {
        Ok(serial_number) => serial_number,
        Err(e) => { return Err(SelfSignError::X509(e)); },
    };
    let signature = match signer.signature_algorithm() {
        Ok(signature) => signature,
        Err(e) => { return Err(SelfSignError::Signer(e)); },
    };
    let tbs_certificate = match build_tbs_certificate(
        context,
        args,
        name,
        spki,
        extensions,
        serial_number,
        signature,
    ) {
        Ok(tbs_certificate) => tbs_certificate,
        Err(e) => { return Err(SelfSignError::X509(e)); },
    };
    match tbs_certificate.sign(context, signer) {
        Ok(certificate) => Ok(certificate),
        Err(e) => Err(SelfSignError::X509(e)),
    }
}

/// What the extensions of a self-signed certificate are, where they can be
/// built: the basic constraints first, then the authority's and the
/// subject's key identifier, which are of the same key identifier, and last
/// the key usage, which is there if and only if usages are asked for.
pub proof fn lemma_self_signed_extensions(
    ca: bool,
    ca_pathlen: Option<u8>,
    usages: Option<Seq<KeyUsage>>,
    key_id: Seq<u8>,
)
    ensures
        self_signed_extensions(ca, ca_pathlen, usages, key_id) matches Some(extensions) ==> {
            &&& extensions.len() == (if usages is Some {
                4int
            } else {
                3int
            })
            &&& extensions[0].extn_id == ExtensionId::BasicConstraints
            &&& extensions[0].critical == ca
            &&& basic_constraints_der(true, ca_pathlen) == Some(extensions[0].extn_value)
            &&& extensions[1].extn_id == ExtensionId::AuthorityKeyIdentifier
            &&& !extensions[1].critical
            &&& authority_key_identifier_der(key_id) == Some(extensions[1].extn_value)
            &&& extensions[2].extn_id == ExtensionId::SubjectKeyIdentifier
            &&& !extensions[2].critical
            &&& subject_key_identifier_der(key_id) == Some(extensions[2].extn_value)
            &&& usages matches Some(list) ==> {
                &&& list.len() > 0
                &&& extensions[3].extn_id == ExtensionId::KeyUsage
                &&& extensions[3].critical
                &&& key_usage_der(usage_mask(usage_flags(list))) == Some(extensions[3].extn_value)
            }
        },
        (usages matches Some(list) && list.len() == 0) ==> self_signed_extensions(
            ca,
            ca_pathlen,
            usages,
            key_id,
        ) is None,
{
}

} // verus!

//! Distinguished names: ordered lists of attributes, each a relative
//! distinguished name of its own.

use const_oid::db::rfc4519::{C, CN, L, O, OU, ST};
use der::asn1::{SetOfVec, Utf8StringRef};
use der::Encode;
use vstd::prelude::*;
use vstd::string::*;
use vstd::utf8::*;
use x509_cert::name::{RdnSequence, RelativeDistinguishedName};

use crate::context::Context;
use crate::encoding::{der_outcome, encoded_as, lift};
use crate::error::X509Error;

verus! {

/// The attribute types that a name can hold.
#[derive(Debug, Clone, Copy, PartialEq, Eq, Structural)]
pub enum AttributeType {
    /// countryName, 2.5.4.6.
    C,
    /// stateOrProvinceName, 2.5.4.8.
    ST,
    /// localityName, 2.5.4.7.
    L,
    /// organizationName, 2.5.4.10.
    O,
    /// organizationalUnitName, 2.5.4.11.
    OU,
    /// commonName, 2.5.4.3.
    CN,
}

/// One attribute of a name: its type and its value, a UTF-8 string whose
/// bytes live in a [`Context`].
#[derive(Debug, Clone, Copy)]
pub struct AttributeTypeAndValue<'a> {
    pub oid: AttributeType,
    pub value: &'a [u8],
}

/// What an [`AttributeTypeAndValue`] stands for.
pub struct AttributeView {
    pub oid: AttributeType,
    pub value: Seq<u8>,
}

impl<'a> View for AttributeTypeAndValue<'a> {
    type V = AttributeView;

    open spec fn view(&self) -> AttributeView {
        AttributeView { oid: self.oid, value: self.value@ }
    }
}

/// A distinguished name: a sequence of relative distinguished names, each of
/// which holds one attribute.
#[derive(Debug)]
pub struct Name<'a> {
    pub rdns: Vec<AttributeTypeAndValue<'a>>,
}

impl<'a> View for Name<'a> {
    type V = Seq<AttributeView>;

    open spec fn view(&self) -> Seq<AttributeView> {
        self.rdns@.map_values(|atv: AttributeTypeAndValue<'a>| atv@)
    }
}

/// The longest value, in bytes, that the DER encoder takes.
pub const MAX_DER_LENGTH: usize = 0x0fff_ffff;

/// The DER encoding of the name whose relative distinguished names hold one
/// attribute each, those of `rdns` in their order, with the values encoded as
/// UTF8String. `None` where the encoder fails.
pub uninterp spec fn name_der(rdns: Seq<AttributeView>) -> Option<Seq<u8>>;

/// `der::asn1::Utf8StringRef::new`, of which the string's bytes are handed
/// on: it accepts valid UTF-8 of at most `MAX_DER_LENGTH` bytes, and the
/// string it makes holds the very bytes it was given.
#[verifier::external_body]
fn utf8_string<'a>(bytes: &'a [u8]) -> (r: Result<&'a [u8], der::Error>)
    ensures
        r is Ok <==> (valid_utf8(bytes@) && bytes@.len() <= MAX_DER_LENGTH),
        r is Ok ==> r.unwrap()@ == bytes@,
{
    Utf8StringRef::new(bytes).map(|s| s.as_bytes())
}

/// `der::Encode::to_vec` on the `x509_cert::name::RdnSequence` that holds,
/// for each attribute of `rdns` in turn, a `RelativeDistinguishedName` with
/// the one `AttributeTypeAndValue` whose type is the object identifier from
/// RFC 4519 and whose value is `Utf8StringRef::new` of the attribute's bytes.
#[verifier::external_body]
fn encode_name(rdns: &[AttributeTypeAndValue<'_>]) -> (r: Result<Vec<u8>, der::Error>)
    ensures
        der_outcome(r, name_der(rdns@.map_values(|atv: AttributeTypeAndValue<'_>| atv@))),
{
    let mut out = Vec::with_capacity(rdns.len());
    for atv in rdns {
        let oid = match atv.oid {
            AttributeType::C => C,
            AttributeType::ST => ST,
            AttributeType::L => L,
            AttributeType::O => O,
            AttributeType::OU => OU,
            AttributeType::CN => CN,
        };
        let value = Utf8StringRef::new(atv.value)?.into();
        let atv = x509_cert::attr::AttributeTypeAndValue { oid, value };
        out.push(RelativeDistinguishedName(SetOfVec::try_from([atv])?));
    }
    RdnSequence(out).to_vec()
}

/// The attribute type that a key names: `C`, `ST`, `L`, `O`, `OU` or `CN`,
/// given as the bytes of the key. Other keys name none.
pub open spec fn attribute_type_of(key: Seq<u8>) -> Option<AttributeType> {
    if key == seq![0x43u8] {
        Some(AttributeType::C)
    } else if key == seq![0x53u8, 0x54u8] {
        Some(AttributeType::ST)
    } else if key == seq![0x4cu8] {
        Some(AttributeType::L)
    } else if key == seq![0x4fu8] {
        Some(AttributeType::O)
    } else if key == seq![0x4fu8, 0x55u8] {
        Some(AttributeType::OU)
    } else if key == seq![0x43u8, 0x4eu8] {
        Some(AttributeType::CN)
    } else {
        None
    }
}

/// The attribute type that a key names, if it names one.
pub fn get_attribute_type(key: &str) -> (r: Option<AttributeType>)
    ensures
        r == attribute_type_of(key.spec_bytes()),
{
    let k = key.as_bytes();
    let r = if k.len() == 1 {
        if k[0] == 0x43 {
            Some(AttributeType::C)
        } else if k[0] == 0x4c {
            Some(AttributeType::L)
        } else if k[0] == 0x4f {
            Some(AttributeType::O)
        } else {
            None
        }
    } else if k.len() == 2 {
        if k[0] == 0x53 && k[1] == 0x54 {
            Some(AttributeType::ST)
        } else if k[0] == 0x4f && k[1] == 0x55 {
            Some(AttributeType::OU)
        } else if k[0] == 0x43 && k[1] == 0x4e {
            Some(AttributeType::CN)
        } else {
            None
        }
    } else {
        None
    };
    proof {
        let s = k@;
        assert(seq![0x43u8].len() == 1 && seq![0x43u8][0] == 0x43);
        assert(seq![0x4cu8].len() == 1 && seq![0x4cu8][0] == 0x4c);
        assert(seq![0x4fu8].len() == 1 && seq![0x4fu8][0] == 0x4f);
        assert(seq![0x53u8, 0x54u8].len() == 2 && seq![0x53u8, 0x54u8][0] == 0x53 && seq![
            0x53u8,
            0x54u8,
        ][1] == 0x54);
        assert(seq![0x4fu8, 0x55u8].len() == 2 && seq![0x4fu8, 0x55u8][0] == 0x4f && seq![
            0x4fu8,
            0x55u8,
        ][1] == 0x55);
        assert(seq![0x43u8, 0x4eu8].len() == 2 && seq![0x43u8, 0x4eu8][0] == 0x43 && seq![
            0x43u8,
            0x4eu8,
        ][1] == 0x4e);
        if s.len() == 1 {
            assert(s[0] == 0x43 ==> s =~= seq![0x43u8]);
            assert(s[0] == 0x4c ==> s =~= seq![0x4cu8]);
            assert(s[0] == 0x4f ==> s =~= seq![0x4fu8]);
        }
        if s.len() == 2 {
            assert(s[0] == 0x53 && s[1] == 0x54 ==> s =~= seq![0x53u8, 0x54u8]);
            assert(s[0] == 0x4f && s[1] == 0x55 ==> s =~= seq![0x4fu8, 0x55u8]);
            assert(s[0] == 0x43 && s[1] == 0x4e ==> s =~= seq![0x43u8, 0x4eu8]);
        }
    }
    r
}

/// The attributes that a list of pairs of a key and a value gives: one for
/// each pair whose key names an attribute type, in the order of the pairs.
/// Pairs with other keys are left out.
pub open spec fn rdns_of(pairs: Seq<(Seq<u8>, Seq<u8>)>) -> Seq<AttributeView>
    decreases pairs.len(),
{
    if pairs.len() == 0 {
        Seq::empty()
    } else {
        let rest = rdns_of(pairs.drop_last());
        match attribute_type_of(pairs.last().0) {
            Some(oid) => rest.push(AttributeView { oid, value: pairs.last().1 }),
            None => rest,
        }
    }
}

/// Every value of the pairs, also of those that are left out, is short
/// enough to be encoded.
pub open spec fn values_fit(pairs: Seq<(Seq<u8>, Seq<u8>)>) -> bool {
    forall|i: int| 0 <= i < pairs.len() ==> (#[trigger] pairs[i]).1.len() <= MAX_DER_LENGTH
}

/// The bytes of pairs of strings.
pub open spec fn pair_bytes(pairs: Seq<(&str, &str)>) -> Seq<(Seq<u8>, Seq<u8>)> {
    pairs.map_values(|p: (&str, &str)| (p.0.spec_bytes(), p.1.spec_bytes()))
}

/// The bytes of pairs of owned strings.
pub open spec fn owned_pair_bytes(pairs: Seq<(String, String)>) -> Seq<(Seq<u8>, Seq<u8>)> {
    pairs.map_values(|p: (String, String)| (encode_utf8(p.0@), encode_utf8(p.1@)))
}

/// A name `r` is the one that `pairs` gives, or a `DERError` where a value of
/// `pairs` is too long.
pub open spec fn name_of_pairs(r: Result<Name<'_>, X509Error>, pairs: Seq<(Seq<u8>, Seq<u8>)>) -> bool {
    match r {
        Ok(name) => values_fit(pairs) && name@ == rdns_of(pairs),
        Err(e) => !values_fit(pairs) && e is DERError,
    }
}

impl<'a> Name<'a> {
    /// The DER encoding of the name.
    pub open spec fn der(&self) -> Option<Seq<u8>> {
        name_der(self@)
    }

    /// Takes the value of one pair into the context and, where the key names
    /// an attribute type, adds the attribute to `rdns`.
    fn push_pair(
        context: &'a Context,
        rdns: &mut Vec<AttributeTypeAndValue<'a>>,
        key: &str,
        val: &str,
    ) -> (r: Result<(), X509Error>)
        ensures
            r is Ok <==> val.spec_bytes().len() <= MAX_DER_LENGTH,
            r is Err ==> r.unwrap_err() is DERError && *final(rdns) == *old(rdns),
            r is Ok ==> final(rdns)@.map_values(|atv: AttributeTypeAndValue<'a>| atv@) == (
            match attribute_type_of(key.spec_bytes()) {
                Some(oid) => old(rdns)@.map_values(|atv: AttributeTypeAndValue<'a>| atv@).push(
                    AttributeView { oid, value: val.spec_bytes() },
                ),
                None => old(rdns)@.map_values(|atv: AttributeTypeAndValue<'a>| atv@),
            }),
    {
        broadcast use encode_utf8_valid_utf8;

        let stored = context.with_reference(val.as_bytes());
        let value = match utf8_string(stored) {
            Ok(value) => value,
            Err(e) => { return Err(X509Error::DERError(e)); },
        };
        if let Some(oid) = get_attribute_type(key) {
            rdns.push(AttributeTypeAndValue { oid, value });
            assert(rdns@.map_values(|atv: AttributeTypeAndValue<'a>| atv@) =~= old(rdns)@.map_values(
                |atv: AttributeTypeAndValue<'a>| atv@,
            ).push(AttributeView { oid, value: val.spec_bytes() }));
        }
        Ok(())
    }

    /// Builds a name from pairs of a key and a value. Pairs whose key is none
    /// of `C`, `ST`, `L`, `O`, `OU`, `CN` are left out; the others keep their
    /// order. The values are copied into `context`.
    pub fn from_pairs(context: &'a Context, pairs: &[(&str, &str)]) -> (r: Result<
        Name<'a>,
        X509Error,
    >)
        ensures
            name_of_pairs(r, pair_bytes(pairs@)),
    {
        let ghost all = pair_bytes(pairs@);
        let mut rdns: Vec<AttributeTypeAndValue<'a>> = Vec::with_capacity(pairs.len());
        let mut i: usize = 0;
        while i < pairs.len()
            invariant
                i <= pairs.len(),
                all == pair_bytes(pairs@),
                values_fit(all.take(i as int)),
                rdns@.map_values(|atv: AttributeTypeAndValue<'a>| atv@) == rdns_of(
                    all.take(i as int),
                ),
            decreases pairs.len() - i,
        {
            let (key, val) = pairs[i];
            proof {
                assert(all[i as int] == (key.spec_bytes(), val.spec_bytes()));
                assert(all.take(i + 1).drop_last() == all.take(i as int));
                assert(all.take(i + 1).last() == all[i as int]);
            }
            match Self::push_pair(context, &mut rdns, key, val) {
                Ok(()) => {},
                Err(e) => {
                    return Err(e);
                },
            }
            i = i + 1;
        }
        proof {
            assert(all.take(i as int) == all);
        }
        Ok(Name { rdns })
    }

    /// Builds a name from owned pairs, as [`Name::from_pairs`] does.
    pub fn from_owned_pairs(context: &'a Context, pairs: &[(String, String)]) -> (r: Result<
        Name<'a>,
        X509Error,
    >)
        ensures
            name_of_pairs(r, owned_pair_bytes(pairs@)),
    {
        let ghost all = owned_pair_bytes(pairs@);
        let mut rdns: Vec<AttributeTypeAndValue<'a>> = Vec::with_capacity(pairs.len());
        let mut i: usize = 0;
        while i < pairs.len()
            invariant
                i <= pairs.len(),
                all == owned_pair_bytes(pairs@),
                values_fit(all.take(i as int)),
                rdns@.map_values(|atv: AttributeTypeAndValue<'a>| atv@) == rdns_of(
                    all.take(i as int),
                ),
            decreases pairs.len() - i,
        {
            let key = pairs[i].0.as_str();
            let val = pairs[i].1.as_str();
            proof {
                assert(all[i as int] == (key.spec_bytes(), val.spec_bytes()));
                assert(all.take(i + 1).drop_last() == all.take(i as int));
                assert(all.take(i + 1).last() == all[i as int]);
            }
            match Self::push_pair(context, &mut rdns, key, val) {
                Ok(()) => {},
                Err(e) => {
                    return Err(e);
                },
            }
            i = i + 1;
        }
        proof {
            assert(all.take(i as int) == all);
        }
        Ok(Name { rdns })
    }

    /// Encodes the name as DER.
    pub fn to_der(&self) -> (r: Result<Vec<u8>, X509Error>)
        ensures
            encoded_as(r, self.der()),
    {
        lift(encode_name(self.rdns.as_slice()))
    }
}

impl<'a> Clone for Name<'a> {
    fn clone(&self) -> (copy: Self)
        ensures
            copy@ == self@,
            copy.rdns@ == self.rdns@,
    {
        let mut rdns: Vec<AttributeTypeAndValue<'a>> = Vec::with_capacity(self.rdns.len());
        let mut i: usize = 0;
        while i < self.rdns.len()
            invariant
                i <= self.rdns.len(),
                rdns@ == self.rdns@.take(i as int),
            decreases self.rdns.len() - i,
        {
            rdns.push(self.rdns[i]);
            assert(rdns@ =~= self.rdns@.take(i + 1));
            i = i + 1;
        }
        assert(self.rdns@.take(i as int) == self.rdns@);
        Name { rdns }
    }
}

/// The attributes of a list of pairs are those of its front followed by
/// those of its back: the order of the pairs is kept, and what a pair gives
/// does not depend on the pairs around it.
pub proof fn lemma_rdns_of_concat(front: Seq<(Seq<u8>, Seq<u8>)>, back: Seq<(Seq<u8>, Seq<u8>)>)
    ensures
        rdns_of(front + back) == rdns_of(front) + rdns_of(back),
    decreases back.len(),
{
    if back.len() == 0 {
        assert(front + back == front);
        assert(rdns_of(front) + rdns_of(back) == rdns_of(front));
    } else {
        assert((front + back).drop_last() == front + back.drop_last());
        assert((front + back).last() == back.last());
        lemma_rdns_of_concat(front, back.drop_last());
        match attribute_type_of(back.last().0) {
            Some(oid) => {
                let atv = AttributeView { oid, value: back.last().1 };
                assert((rdns_of(front) + rdns_of(back.drop_last())).push(atv) == rdns_of(front)
                    + rdns_of(back.drop_last()).push(atv));
            },
            None => {},
        }
    }
}

/// A pair whose key names no attribute type adds nothing to a name, and one
/// whose key names a type adds exactly its own attribute at the end.
pub proof fn lemma_rdns_of_push(pairs: Seq<(Seq<u8>, Seq<u8>)>, key: Seq<u8>, value: Seq<u8>)
    ensures
        attribute_type_of(key) is None ==> rdns_of(pairs.push((key, value))) == rdns_of(pairs),
        attribute_type_of(key) is Some ==> rdns_of(pairs.push((key, value))) == rdns_of(pairs).push(
            AttributeView { oid: attribute_type_of(key).unwrap(), value },
        ),
{
    assert(pairs.push((key, value)).drop_last() == pairs);
}

} // verus!

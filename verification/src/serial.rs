//! Serial numbers: unsigned integers given by their big-endian bytes.

use der::asn1::UIntRef;
use vstd::arithmetic::power::{lemma_pow0, pow};
use vstd::prelude::*;

use crate::context::Context;
use crate::error::X509Error;
use crate::name::MAX_DER_LENGTH;

verus! {

/// The bytes without their leading zero bytes; of bytes that are all zero,
/// the last one is kept.
pub open spec fn strip_leading_zeroes(bytes: Seq<u8>) -> Seq<u8>
    decreases bytes.len(),
{
    if bytes.len() > 1 && bytes[0] == 0 {
        strip_leading_zeroes(bytes.drop_first())
    } else {
        bytes
    }
}

/// The number that big-endian bytes stand for.
pub open spec fn be_value(bytes: Seq<u8>) -> nat
    decreases bytes.len(),
{
    if bytes.len() == 0 {
        0
    } else {
        be_value(bytes.drop_last()) * 256 + bytes.last() as nat
    }
}

/// `der::asn1::UIntRef::new`, of which `as_bytes` is handed on: the bytes
/// without their leading zeroes, a part of `bytes`. It fails where more than
/// `MAX_DER_LENGTH` bytes are left.
#[verifier::external_body]
fn uint_bytes<'a>(bytes: &'a [u8]) -> (r: Result<&'a [u8], der::Error>)
    ensures
        r is Ok <==> strip_leading_zeroes(bytes@).len() <= MAX_DER_LENGTH,
        r is Ok ==> r.unwrap()@ == strip_leading_zeroes(bytes@),
{
    UIntRef::new(bytes).map(|uint| uint.as_bytes())
}

/// A serial number. Its bytes live in a [`Context`]; they are big-endian and
/// have no leading zero byte, unless the number is the one byte zero.
#[derive(Debug, Clone, Copy)]
pub struct SerialNumber<'a> {
    bytes: &'a [u8],
}

impl<'a> SerialNumber<'a> {
    #[verifier::type_invariant]
    spec fn canonical(self) -> bool {
        strip_leading_zeroes(self.bytes@) == self.bytes@ && self.bytes@.len() <= MAX_DER_LENGTH
    }

    /// The big-endian bytes of the number.
    pub closed spec fn magnitude(self) -> Seq<u8> {
        self.bytes@
    }

    /// The number.
    pub open spec fn value(self) -> nat {
        be_value(self.magnitude())
    }

    /// Takes a number, given by big-endian bytes, into the context. Leading
    /// zero bytes are dropped.
    pub fn from_bytes(context: &'a Context, bytes: &[u8]) -> (r: Result<SerialNumber<'a>, X509Error>)
        ensures
            r is Ok <==> strip_leading_zeroes(bytes@).len() <= MAX_DER_LENGTH,
            r is Ok ==> r.unwrap().magnitude() == strip_leading_zeroes(bytes@),
            r is Ok ==> r.unwrap().value() == be_value(bytes@),
            r is Err ==> r.unwrap_err() is DERError,
    {
        let stored = context.with_reference(bytes);
        match uint_bytes(stored) {
            Ok(stripped) => {
                proof {
                    lemma_strip_idempotent(bytes@);
                    lemma_strip_keeps_value(bytes@);
                }
                Ok(SerialNumber { bytes: stripped })
            },
            Err(e) => Err(X509Error::DERError(e)),
        }
    }

    /// The big-endian bytes of the number.
    pub fn as_bytes(&self) -> (bytes: &'a [u8])
        ensures
            bytes@ == self.magnitude(),
            strip_leading_zeroes(bytes@) == bytes@,
            bytes@.len() <= MAX_DER_LENGTH,
    {
        proof {
            use_type_invariant(self);
        }
        self.bytes
    }
}

/// Stripping leaves a part of the bytes that is no longer than they are.
pub proof fn lemma_strip_len(bytes: Seq<u8>)
    ensures
        strip_leading_zeroes(bytes).len() <= bytes.len(),
        bytes.len() > 0 ==> strip_leading_zeroes(bytes).len() > 0,
    decreases bytes.len(),
{
    if bytes.len() > 1 && bytes[0] == 0 {
        lemma_strip_len(bytes.drop_first());
    }
}

/// Stripped bytes have nothing left to strip.
pub proof fn lemma_strip_idempotent(bytes: Seq<u8>)
    ensures
        strip_leading_zeroes(strip_leading_zeroes(bytes)) == strip_leading_zeroes(bytes),
    decreases bytes.len(),
{
    if bytes.len() > 1 && bytes[0] == 0 {
        lemma_strip_idempotent(bytes.drop_first());
    }
}

/// A leading zero byte does not change the number.
pub proof fn lemma_leading_zero(bytes: Seq<u8>)
    requires
        bytes.len() > 0,
        bytes[0] == 0,
    ensures
        be_value(bytes) == be_value(bytes.drop_first()),
    decreases bytes.len(),
{
    if bytes.len() == 1 {
        assert(be_value(bytes.drop_last()) == 0);
        assert(be_value(bytes.drop_first()) == 0);
        assert(bytes.last() == 0);
    } else {
        let tail = bytes.drop_first();
        lemma_leading_zero(bytes.drop_last());
        assert(bytes.drop_last().drop_first() == tail.drop_last());
        assert(tail.last() == bytes.last());
        assert(be_value(tail) == be_value(tail.drop_last()) * 256 + tail.last() as nat);
        assert(be_value(bytes) == be_value(bytes.drop_last()) * 256 + bytes.last() as nat);
    }
}

/// Stripping the leading zeroes does not change the number.
pub proof fn lemma_strip_keeps_value(bytes: Seq<u8>)
    ensures
        be_value(strip_leading_zeroes(bytes)) == be_value(bytes),
    decreases bytes.len(),
{
    if bytes.len() > 1 && bytes[0] == 0 {
        lemma_strip_keeps_value(bytes.drop_first());
        lemma_leading_zero(bytes);
    }
}

/// A number of `n` bytes is below 256 to the power of `n`, and so never
/// negative and of at most `8 * n` bits.
pub proof fn lemma_value_bound(bytes: Seq<u8>)
    ensures
        be_value(bytes) < pow(256, bytes.len()),
    decreases bytes.len(),
{
    if bytes.len() == 0 {
        lemma_pow0(256);
    } else {
        lemma_value_bound(bytes.drop_last());
        let n = bytes.len();
        let high = be_value(bytes.drop_last());
        let p = pow(256, (n - 1) as nat);
        assert(pow(256, n) == 256 * p) by {
            reveal(pow);
        }
        assert(high * 256 + (bytes.last() as nat) < 256 * p) by {
            assert(high + 1 <= p);
            assert((high + 1) * 256 <= p * 256) by (nonlinear_arith)
                requires
                    high + 1 <= p,
            ;
        }
    }
}

/// Whether the number that big-endian bytes stand for is greater than one.
pub fn exceeds_one(bytes: &[u8]) -> (r: bool)
    ensures
        r == (be_value(bytes@) > 1),
{
    // 0 and 1 stand for themselves, 2 for every greater number
    let mut class: u8 = 0;
    let mut i: usize = 0;
    while i < bytes.len()
        invariant
            i <= bytes.len(),
            class <= 2,
            class == 0 <==> be_value(bytes@.take(i as int)) == 0,
            class == 1 <==> be_value(bytes@.take(i as int)) == 1,
        decreases bytes.len() - i,
    {
        proof {
            assert(bytes@.take(i + 1).drop_last() == bytes@.take(i as int));
            assert(bytes@.take(i + 1).last() == bytes@[i as int]);
        }
        if class == 0 {
            class = if bytes[i] > 1 {
                2
            } else {
                bytes[i]
            };
        } else {
            class = 2;
        }
        i = i + 1;
    }
    assert(bytes@.take(i as int) == bytes@);
    class == 2
}

} // verus!

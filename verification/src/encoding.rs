//! How the outcome of a DER encoder is compared with what it should be.

use vstd::prelude::*;

use crate::error::X509Error;

verus! {

/// An encoder's outcome `r` agrees with `expected`: it holds exactly the
/// expected bytes, or it failed where no encoding is expected.
pub open spec fn der_outcome(r: Result<Vec<u8>, der::Error>, expected: Option<Seq<u8>>) -> bool {
    match r {
        Ok(bytes) => expected == Some(bytes@),
        Err(_) => expected is None,
    }
}

/// A library function's outcome `r` agrees with `expected`: it holds exactly
/// the expected bytes, or it is a `DERError` where no encoding is expected.
pub open spec fn encoded_as(r: Result<Vec<u8>, X509Error>, expected: Option<Seq<u8>>) -> bool {
    match r {
        Ok(bytes) => expected == Some(bytes@),
        Err(e) => expected is None && e is DERError,
    }
}

/// Turns an encoder's outcome into the library's.
pub fn lift(r: Result<Vec<u8>, der::Error>) -> (out: Result<Vec<u8>, X509Error>)
    ensures
        forall|expected: Option<Seq<u8>>| der_outcome(r, expected) ==> encoded_as(out, expected),
        r is Ok <==> out is Ok,
{
    match r {
        Ok(bytes) => Ok(bytes),
        Err(e) => Err(X509Error::DERError(e)),
    }
}

} // verus!

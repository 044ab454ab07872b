//! PEM text of certificates.

use der::Document;
use pkcs8::LineEnding;
use vstd::prelude::*;

use crate::error::X509Error;
use crate::signer::Certificate;

verus! {

/// The PEM text of a DER-encoded certificate: the encoding in Base64 between
/// the boundary lines of the label `CERTIFICATE`, with lines that end in a
/// carriage return and a line feed. `None` where `der` is not one DER-encoded
/// sequence or the encoder fails.
pub uninterp spec fn certificate_pem(der: Seq<u8>) -> Option<Seq<char>>;

/// `der::Document::to_pem` with the label `CERTIFICATE` and CRLF line
/// endings, on the document that `Document::try_from` makes of `der`.
#[verifier::external_body]
fn encode_certificate_pem(der: &[u8]) -> (r: Result<String, der::Error>)
    ensures
        match r {
            Ok(text) => certificate_pem(der@) == Some(text@),
            Err(_) => certificate_pem(der@) is None,
        },
{
    Document::try_from(der)?.to_pem("CERTIFICATE", LineEnding::CRLF)
}

/// Values that have a PEM text.
pub trait PemOperations {
    /// The PEM text of the value, if it has one.
    spec fn pem(&self) -> Option<Seq<char>>;

    /// The PEM text of the value.
    fn to_pem(&self) -> (r: Result<String, X509Error>)
        ensures
            match r {
                Ok(text) => self.pem() == Some(text@),
                Err(e) => self.pem() is None && e is DERError,
            },
    ;
}

impl<'a> PemOperations for Certificate<'a> {
    /// The PEM text of the certificate's DER encoding.
    open spec fn pem(&self) -> Option<Seq<char>> {
        match self@.der() {
            Some(der) => certificate_pem(der),
            None => None,
        }
    }

    fn to_pem(&self) -> (r: Result<String, X509Error>) {
        let der = match self.to_der() {
            Ok(der) => der,
            Err(e) => { return Err(e); },
        };
        match encode_certificate_pem(der.as_slice()) {
            Ok(text) => Ok(text),
            Err(e) => Err(X509Error::DERError(e)),
        }
    }
}

} // verus!

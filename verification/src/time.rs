//! Encoded times and validity periods.

use core::time::Duration;
use der::asn1::{GeneralizedTime, UtcTime};
use der::Encode;
use vstd::prelude::*;

use crate::encoding::{der_outcome, encoded_as, lift};
use crate::error::X509Error;

verus! {

/// A point in time in one of the two time encodings. Both hold the number of
/// whole seconds since 1970-01-01T00:00:00Z.
#[derive(Debug, Clone, Copy, PartialEq, Eq, Structural)]
pub enum Time {
    /// The short form, with a year of two digits.
    UtcTime(u64),
    /// The extended form, with a year of four digits.
    GeneralTime(u64),
}

/// A validity period whose two ends have their time encoding chosen.
#[derive(Debug, Clone, Copy, PartialEq, Eq, Structural)]
pub struct Validity {
    pub not_before: Time,
    pub not_after: Time,
}

/// 2050-01-01T00:00:00Z in seconds since 1970-01-01T00:00:00Z: the first
/// instant that the short form cannot hold.
pub const YEAR_2050: u64 = 2_524_608_000;

/// 9999-12-31T23:59:59Z in seconds since 1970-01-01T00:00:00Z: the last
/// instant that the extended form can hold.
pub const LAST_SECOND: u64 = 253_402_300_799;

/// The DER encoding of the validity period with the given ends. `None` where
/// the encoder fails, as it does for an end outside its encoding's range.
pub uninterp spec fn validity_der(not_before: Time, not_after: Time) -> Option<Seq<u8>>;

/// `der::asn1::UtcTime::from_unix_duration` for a number of milliseconds, and
/// of what it gives `to_unix_duration` in whole seconds. A `UtcTime` holds
/// instants up to the end of 2049, in whole seconds.
#[verifier::external_body]
pub(crate) fn utc_time_seconds(millis: u64) -> (r: Option<u64>)
    ensures
        r == (if millis / 1000 < YEAR_2050 {
            Some(millis / 1000)
        } else {
            None
        }),
{
    UtcTime::from_unix_duration(Duration::from_millis(millis)).ok().map(
        |t| t.to_unix_duration().as_secs(),
    )
}

/// `der::asn1::GeneralizedTime::from_unix_duration` for a number of
/// milliseconds, and of what it gives `to_unix_duration` in whole seconds. A
/// `GeneralizedTime` holds instants up to 9999-12-31T23:59:59Z, in whole
/// seconds.
#[verifier::external_body]
pub(crate) fn generalized_time_seconds(millis: u64) -> (r: Option<u64>)
    ensures
        r == (if millis <= LAST_SECOND * 1000 {
            Some(millis / 1000)
        } else {
            None
        }),
{
    GeneralizedTime::from_unix_duration(Duration::from_millis(millis)).ok().map(
        |t| t.to_unix_duration().as_secs(),
    )
}

/// `der::Encode::to_vec` on the `x509_cert::time::Validity` whose ends are
/// made by `UtcTime::from_unix_duration` or
/// `GeneralizedTime::from_unix_duration`, as the form of each end says, of
/// the end's seconds.
#[verifier::external_body]
fn encode_validity(not_before: Time, not_after: Time) -> (r: Result<Vec<u8>, der::Error>)
    ensures
        der_outcome(r, validity_der(not_before, not_after)),
{
    let convert = |t: Time| match t {
        Time::UtcTime(s) => UtcTime::from_unix_duration(Duration::from_secs(s)).map(
            x509_cert::time::Time::UtcTime,
        ),
        Time::GeneralTime(s) => GeneralizedTime::from_unix_duration(Duration::from_secs(s)).map(
            x509_cert::time::Time::GeneralTime,
        ),
    };
    x509_cert::time::Validity { not_before: convert(not_before)?, not_after: convert(not_after)? }
        .to_vec()
}

impl Time {
    /// The seconds since 1970-01-01T00:00:00Z.
    pub open spec fn spec_seconds(&self) -> u64 {
        match self {
            Time::UtcTime(s) => *s,
            Time::GeneralTime(s) => *s,
        }
    }

    /// The seconds since 1970-01-01T00:00:00Z.
    #[verifier::when_used_as_spec(spec_seconds)]
    pub fn seconds(&self) -> (s: u64)
        ensures
            s == self.spec_seconds(),
    {
        match self {
            Time::UtcTime(s) => *s,
            Time::GeneralTime(s) => *s,
        }
    }

    /// The time lies in the range that its form can hold.
    pub open spec fn in_range(&self) -> bool {
        match self {
            Time::UtcTime(s) => *s < YEAR_2050,
            Time::GeneralTime(s) => *s <= LAST_SECOND,
        }
    }
}

impl Validity {
    /// The DER encoding of the period.
    pub open spec fn der(&self) -> Option<Seq<u8>> {
        validity_der(self.not_before, self.not_after)
    }

    /// Encodes the period as DER.
    pub fn to_der(&self) -> (r: Result<Vec<u8>, X509Error>)
        ensures
            encoded_as(r, self.der()),
    {
        lift(encode_validity(self.not_before, self.not_after))
    }
}

} // verus!

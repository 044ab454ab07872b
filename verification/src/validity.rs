//! Validity periods given as instants, and the choice of a time encoding for
//! each of their ends.

use chrono::Datelike;
use core::ops::Range;
use vstd::prelude::*;
use vstd::std_specs::convert::{FromSpecImpl, TryFromSpecImpl};

use crate::error::X509Error;
use crate::time::{generalized_time_seconds, utc_time_seconds, Time, LAST_SECOND, YEAR_2050};

verus! {

/// A validity period from `not_before` up to, but not including, `not_after`.
/// Both are instants in milliseconds since 1970-01-01T00:00:00Z, as
/// `chrono::DateTime::<Utc>::timestamp_millis` gives them.
#[derive(Debug, Clone, Copy, PartialEq, Eq, Structural)]
pub struct Validity {
    pub not_before: i64,
    pub not_after: i64,
}

/// The calendar year, in UTC, of the instant that lies `millis` milliseconds
/// after 1970-01-01T00:00:00Z. `None` where the instant is outside the range
/// of `chrono::DateTime`.
pub uninterp spec fn utc_year(millis: i64) -> Option<i32>;

/// `chrono::Datelike::year` of `chrono::DateTime::from_timestamp_millis`.
/// Every instant from 1970 to the end of 9999 is in the range of `DateTime`,
/// and the years before 2050 are those of the instants before
/// 2050-01-01T00:00:00Z.
#[verifier::external_body]
fn year_of(millis: i64) -> (year: Option<i32>)
    ensures
        year == utc_year(millis),
        0 <= millis < (LAST_SECOND + 1) * 1000 ==> year is Some,
        year is Some ==> (year.unwrap() < 2050 <==> millis < YEAR_2050 * 1000),
{
    chrono::DateTime::from_timestamp_millis(millis).map(|instant| instant.year())
}

/// The encoded time of an instant: the short form before 2050, the extended
/// form from 2050 on, both in whole seconds. `None` for an instant before
/// 1970 or after 9999-12-31T23:59:59Z.
pub open spec fn time_of(millis: i64) -> Option<Time> {
    if 0 <= millis < YEAR_2050 * 1000 {
        Some(Time::UtcTime((millis / 1000) as u64))
    } else if YEAR_2050 * 1000 <= millis <= LAST_SECOND * 1000 {
        Some(Time::GeneralTime((millis / 1000) as u64))
    } else {
        None
    }
}

/// Chooses the time encoding of an instant by its calendar year: the short
/// form for a year before 2050, the extended form otherwise.
pub fn chrono_as_time(ch: i64) -> (r: Option<Time>)
    ensures
        r == time_of(ch),
        r is Some ==> r.unwrap().in_range(),
        r is Some ==> utc_year(ch) is Some && (r.unwrap() is UtcTime <==> utc_year(ch).unwrap()
            < 2050),
        0 <= ch && utc_year(ch) is Some && utc_year(ch).unwrap() < 2050 ==> r is Some,
{
    if ch < 0 {
        return None;
    }
    let offset: u64 = ch as u64;
    match year_of(ch) {
        None => None,
        Some(year) => {
            if year < 2050 {
                match utc_time_seconds(offset) {
                    Some(s) => Some(Time::UtcTime(s)),
                    None => None,
                }
            } else {
                match generalized_time_seconds(offset) {
                    Some(s) => Some(Time::GeneralTime(s)),
                    None => None,
                }
            }
        },
    }
}

impl Validity {
    /// The period with the time encoding of each end chosen on its own, or
    /// the error of the first end that has no encoded time.
    pub open spec fn encoded(&self) -> Result<crate::time::Validity, X509Error> {
        match (time_of(self.not_before), time_of(self.not_after)) {
            (None, _) => Err(X509Error::FailedBuildingNotBefore),
            (Some(_), None) => Err(X509Error::FailedBuildingNotAfter),
            (Some(not_before), Some(not_after)) => Ok(
                crate::time::Validity { not_before, not_after },
            ),
        }
    }

    /// Chooses the time encoding of each end on its own.
    pub fn encode(&self) -> (r: Result<crate::time::Validity, X509Error>)
        ensures
            r == self.encoded(),
    {
        let not_before = match chrono_as_time(self.not_before) {
            Some(t) => t,
            None => { return Err(X509Error::FailedBuildingNotBefore); },
        };
        let not_after = match chrono_as_time(self.not_after) {
            Some(t) => t,
            None => { return Err(X509Error::FailedBuildingNotAfter); },
        };
        Ok(crate::time::Validity { not_before, not_after })
    }
}

impl TryFrom<&Validity> for crate::time::Validity {
    type Error = X509Error;

    fn try_from(this: &Validity) -> (r: Result<Self, X509Error>) {
        this.encode()
    }
}

impl TryFromSpecImpl<&Validity> for crate::time::Validity {
    open spec fn obeys_try_from_spec() -> bool {
        true
    }

    open spec fn try_from_spec(this: &Validity) -> Result<Self, X509Error> {
        this.encoded()
    }
}

impl From<Range<i64>> for Validity {
    fn from(this: Range<i64>) -> (r: Self) {
        Validity { not_before: this.start, not_after: this.end }
    }
}

impl FromSpecImpl<Range<i64>> for Validity {
    open spec fn obeys_from_spec() -> bool {
        true
    }

    open spec fn from_spec(this: Range<i64>) -> Self {
        Validity { not_before: this.start, not_after: this.end }
    }
}

/// The last instant of 2049 and the first of 2050 get different forms.
pub proof fn lemma_forms_meet_at_2050()
    ensures
        time_of(2_524_607_999_000) == Some(Time::UtcTime(2_524_607_999)),
        time_of(2_524_608_000_000) == Some(Time::GeneralTime(2_524_608_000)),
{
}

/// The two forms split the instants that have an encoded time at 2050, and
/// an encoded time never lies after its instant, nor a second or more before.
pub proof fn lemma_time_of_form(millis: i64)
    ensures
        time_of(millis) is Some <==> 0 <= millis <= LAST_SECOND * 1000,
        time_of(millis) is Some ==> (time_of(millis).unwrap() is UtcTime <==> millis < YEAR_2050
            * 1000),
        time_of(millis) is Some ==> time_of(millis).unwrap().in_range(),
        time_of(millis) is Some ==> time_of(millis).unwrap().spec_seconds() * 1000 <= millis
            < time_of(millis).unwrap().spec_seconds() * 1000 + 1000,
{
}

} // verus!

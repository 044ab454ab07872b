use chrono::TimeZone;
use der::{Decode, Encode};
use x509_util::error::X509Error;
use x509_util::time::Time;
use x509_util::validity::{chrono_as_time, Validity};

fn millis(year: i32, month: u32, day: u32, hour: u32, min: u32, sec: u32) -> i64 {
    chrono::Utc
        .with_ymd_and_hms(year, month, day, hour, min, sec)
        .unwrap()
        .timestamp_millis()
}

#[test]
fn test_chrono_to_utctime() {
    let time = chrono::Utc.with_ymd_and_hms(2025, 1, 1, 0, 0, 0).unwrap();
    let time2 = chrono::Utc
        .with_ymd_and_hms(2049, 12, 31, 23, 59, 59)
        .unwrap();

    assert!(matches!(
        chrono_as_time(time.timestamp_millis()),
        Some(Time::UtcTime(_))
    ));
    assert!(matches!(
        chrono_as_time(time2.timestamp_millis()),
        Some(Time::UtcTime(_))
    ));
}

#[test]
fn test_chrono_to_generalized() {
    let time = chrono::Utc.with_ymd_and_hms(2055, 1, 1, 0, 0, 0).unwrap();

    assert!(matches!(
        chrono_as_time(time.timestamp_millis()),
        Some(Time::GeneralTime(_))
    ));
}

#[test]
fn forms_meet_at_2050() {
    assert_eq!(
        chrono_as_time(millis(2049, 12, 31, 23, 59, 59)),
        Some(Time::UtcTime(2_524_607_999))
    );
    assert_eq!(
        chrono_as_time(millis(2050, 1, 1, 0, 0, 0)),
        Some(Time::GeneralTime(2_524_608_000))
    );
    assert_eq!(
        chrono_as_time(2_524_607_999_999),
        Some(Time::UtcTime(2_524_607_999))
    );
}

#[test]
fn encoded_time_is_in_whole_seconds() {
    assert_eq!(chrono_as_time(0), Some(Time::UtcTime(0)));
    assert_eq!(chrono_as_time(999), Some(Time::UtcTime(0)));
    assert_eq!(chrono_as_time(1_000), Some(Time::UtcTime(1)));
    assert_eq!(
        chrono_as_time(millis(2025, 1, 1, 0, 0, 0) + 123),
        Some(Time::UtcTime(1_735_689_600))
    );
    assert_eq!(
        chrono_as_time(millis(2055, 1, 1, 0, 0, 0) + 999),
        Some(Time::GeneralTime(2_682_374_400))
    );
}

#[test]
fn instants_before_1970_have_no_time() {
    assert_eq!(chrono_as_time(-1), None);
    assert_eq!(chrono_as_time(millis(1969, 12, 31, 23, 59, 59)), None);
    assert_eq!(chrono_as_time(i64::MIN), None);
}

#[test]
fn instants_after_9999_have_no_time() {
    assert_eq!(
        chrono_as_time(millis(9999, 12, 31, 23, 59, 59)),
        Some(Time::GeneralTime(253_402_300_799))
    );
    assert_eq!(chrono_as_time(253_402_300_799_001), None);
    assert_eq!(chrono_as_time(millis(10000, 1, 1, 0, 0, 0)), None);
    assert_eq!(chrono_as_time(i64::MAX), None);
}

#[test]
fn year_decides_the_form_for_every_year() {
    for year in 1970..2050 {
        assert!(matches!(
            chrono_as_time(millis(year, 6, 15, 12, 0, 0)),
            Some(Time::UtcTime(_))
        ));
    }
    for year in 2050..2200 {
        assert!(matches!(
            chrono_as_time(millis(year, 6, 15, 12, 0, 0)),
            Some(Time::GeneralTime(_))
        ));
    }
}

#[test]
fn validity_from_range() {
    let validity: Validity = (10..20).into();
    assert_eq!(validity.not_before, 10);
    assert_eq!(validity.not_after, 20);
}

#[test]
fn validity_ends_are_encoded_on_their_own() {
    let validity: Validity =
        (millis(2049, 1, 1, 0, 0, 0)..millis(2051, 1, 1, 0, 0, 0)).into();
    let encoded = validity.encode().unwrap();
    assert!(matches!(encoded.not_before, Time::UtcTime(_)));
    assert!(matches!(encoded.not_after, Time::GeneralTime(_)));

    let converted: x509_util::time::Validity = (&validity).try_into().unwrap();
    assert_eq!(converted, encoded);
}

#[test]
fn validity_names_the_end_that_fails() {
    let before: Validity = (-5..millis(2030, 1, 1, 0, 0, 0)).into();
    assert!(matches!(
        before.encode(),
        Err(X509Error::FailedBuildingNotBefore)
    ));

    let after: Validity = (millis(2030, 1, 1, 0, 0, 0)..i64::MAX).into();
    assert!(matches!(
        after.encode(),
        Err(X509Error::FailedBuildingNotAfter)
    ));

    let both: Validity = (-5..i64::MAX).into();
    assert!(matches!(
        both.encode(),
        Err(X509Error::FailedBuildingNotBefore)
    ));
    let tried: Result<x509_util::time::Validity, X509Error> = (&both).try_into();
    assert!(matches!(tried, Err(X509Error::FailedBuildingNotBefore)));
}

#[test]
fn validity_der_is_that_of_x509_cert() {
    let not_before = chrono::Utc.with_ymd_and_hms(2049, 3, 4, 5, 6, 7).unwrap();
    let not_after = chrono::Utc.with_ymd_and_hms(2061, 8, 9, 10, 11, 12).unwrap();
    let validity: Validity =
        (not_before.timestamp_millis()..not_after.timestamp_millis()).into();
    let der = validity.encode().unwrap().to_der().unwrap();

    let expected = x509_cert::time::Validity {
        not_before: x509_cert::time::Time::UtcTime(
            der::asn1::UtcTime::from_unix_duration(core::time::Duration::from_secs(
                not_before.timestamp() as u64,
            ))
            .unwrap(),
        ),
        not_after: x509_cert::time::Time::GeneralTime(
            der::asn1::GeneralizedTime::from_unix_duration(core::time::Duration::from_secs(
                not_after.timestamp() as u64,
            ))
            .unwrap(),
        ),
    };
    assert_eq!(der, expected.to_vec().unwrap());

    let decoded = x509_cert::time::Validity::from_der(&der).unwrap();
    assert_eq!(
        decoded.not_before.to_unix_duration().as_secs(),
        not_before.timestamp() as u64
    );
    assert_eq!(
        decoded.not_after.to_unix_duration().as_secs(),
        not_after.timestamp() as u64
    );
    // UTCTime 490304050607Z, GeneralizedTime 20610809101112Z
    assert_eq!(
        der,
        vec![
            0x30, 0x20, 0x17, 0x0d, b'4', b'9', b'0', b'3', b'0', b'4', b'0', b'5', b'0', b'6',
            b'0', b'7', b'Z', 0x18, 0x0f, b'2', b'0', b'6', b'1', b'0', b'8', b'0', b'9', b'1',
            b'0', b'1', b'1', b'1', b'2', b'Z',
        ]
    );
}

#[test]
fn a_time_outside_its_form_is_not_encoded() {
    let bad = x509_util::time::Validity {
        not_before: Time::UtcTime(2_524_608_000),
        not_after: Time::GeneralTime(2_524_608_000),
    };
    assert!(matches!(bad.to_der(), Err(X509Error::DERError(_))));
}

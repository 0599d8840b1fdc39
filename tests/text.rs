use trackellite::decimal::Decimal;
use trackellite::status::CurrentMsg;
use trackellite::text::decimal_string;
use trackellite::timefmt::{strf_seconds, strf_seconds_small};

#[test]
fn clock_readings() {
    assert_eq!(strf_seconds_small(3723), "+01:02:03");
    assert_eq!(strf_seconds_small(-3723), "-01:02:03");
    assert_eq!(strf_seconds_small(0), "+00:00:00");
    assert_eq!(strf_seconds_small(360000), "+100:00:00");
    assert_eq!(strf_seconds_small(i64::MIN), "-2562047788015215:30:08");
}

#[test]
fn spans() {
    assert_eq!(strf_seconds(90061), "1 day(s), 1h 1m 1s");
    assert_eq!(strf_seconds(-59), "0 day(s), 0h 0m 59s");
    assert_eq!(strf_seconds(0), "0 day(s), 0h 0m 0s");
}

#[test]
fn decimals() {
    assert_eq!(Decimal::parse("-12.5").unwrap().as_str(), "-12.5");
    assert_eq!(Decimal::parse("5.").unwrap().as_str(), "5.");
    assert_eq!(Decimal::parse(".5").unwrap().as_str(), ".5");
    assert!(Decimal::parse("1.2.3").is_none());
    assert!(Decimal::parse("-").is_none());
    assert!(Decimal::parse(".").is_none());
    assert!(Decimal::parse("").is_none());
    assert!(Decimal::parse("1e5").is_none());
    assert!(Decimal::parse("--1").is_none());
    assert!(Decimal::parse("90.0").unwrap().magnitude_at_most(90));
    assert!(!Decimal::parse("90.01").unwrap().magnitude_at_most(90));
    assert!(Decimal::parse("-180").unwrap().magnitude_at_most(180));
    assert!(!Decimal::parse("-180.5").unwrap().magnitude_at_most(180));
    assert!(Decimal::parse("0089.999").unwrap().magnitude_at_most(90));
    assert!(!Decimal::parse("99999999999999999999999").unwrap().magnitude_at_most(90));
    assert!(Decimal::parse("18446744073709551615").unwrap().magnitude_at_most(u64::MAX));
    assert!(!Decimal::parse("18446744073709551615.1").unwrap().magnitude_at_most(u64::MAX));
    assert!(!Decimal::parse("18446744073709551616").unwrap().magnitude_at_most(u64::MAX));
    assert_eq!(Decimal::zero().as_str(), "0");
}

#[test]
fn numbers_in_decimal() {
    assert_eq!(decimal_string(0), "0");
    assert_eq!(decimal_string(25544), "25544");
    assert_eq!(decimal_string(u64::MAX), "18446744073709551615");
}

#[test]
fn statuses() {
    let e = CurrentMsg::error("bad");
    assert!(e.error);
    assert_eq!(e.text, "bad");
    let m = CurrentMsg::message("fine");
    assert!(!m.error);
    assert_eq!(m.text, "fine");
}

use fluent_datetime::datetime::DateValue;
use fluent_datetime::zone::{attach_zone, attached_outcome, LocalOffset, SystemZone, ZoneError};
use jiff::tz::TimeZone;

fn new_york() -> TimeZone {
    TimeZone::get("America/New_York").unwrap()
}

#[test]
fn compatible_rule_reads_with_the_offset_before_the_change() {
    assert_eq!(LocalOffset::Unambiguous { offset: 3600 }.compatible_offset(), 3600);
    assert_eq!(LocalOffset::Gap { before: -18000, after: -14400 }.compatible_offset(), -18000);
    assert_eq!(LocalOffset::Fold { before: -14400, after: -18000 }.compatible_offset(), -14400);
}

#[test]
fn a_reading_in_a_gap_moves_on_by_the_gap() {
    let reading = DateValue::try_new(2024, 3, 10, 2, 30, 0, 0).unwrap();
    let zoned = attach_zone(&new_york(), &reading).unwrap();
    assert_eq!(zoned.to_string(), "2024-03-10T03:30:00-04:00[America/New_York]");
}

#[test]
fn a_reading_in_a_fold_takes_the_earlier_instant() {
    let reading = DateValue::try_new(2024, 11, 3, 1, 30, 0, 0).unwrap();
    let zoned = attach_zone(&new_york(), &reading).unwrap();
    assert_eq!(zoned.to_string(), "2024-11-03T01:30:00-04:00[America/New_York]");
    assert_eq!(zoned.timestamp().as_second(), 1_730_611_800);
}

#[test]
fn an_unambiguous_reading_keeps_its_wall_clock() {
    let reading = DateValue::try_new(2024, 7, 15, 17, 30, 0, 0).unwrap();
    let zoned = attach_zone(&new_york(), &reading).unwrap();
    assert_eq!(zoned.to_string(), "2024-07-15T17:30:00-04:00[America/New_York]");
    let zoned = attach_zone(&TimeZone::UTC, &reading).unwrap();
    assert_eq!(zoned.to_string(), "2024-07-15T17:30:00+00:00[UTC]");
}

#[test]
fn a_leap_second_is_attached_as_the_last_nanosecond_before_it() {
    let leap = DateValue::try_new(2016, 12, 31, 23, 59, 60, 0).unwrap();
    let clamped = DateValue::try_new(2016, 12, 31, 23, 59, 59, 999_999_999).unwrap();
    let zoned = attach_zone(&new_york(), &leap).unwrap();
    assert_eq!(zoned.to_string(), "2016-12-31T23:59:59.999999999-05:00[America/New_York]");
    assert_eq!(zoned, attach_zone(&new_york(), &clamped).unwrap());
}

#[test]
fn an_instant_out_of_range_is_refused() {
    let last = DateValue::try_new(9999, 12, 31, 23, 59, 59, 0).unwrap();
    assert_eq!(attach_zone(&new_york(), &last), Err(ZoneError));
    let first = DateValue::try_new(-9999, 1, 1, 0, 0, 0, 0).unwrap();
    let east = TimeZone::get("Asia/Tokyo").unwrap();
    assert_eq!(attach_zone(&east, &first), Err(ZoneError));
}

#[test]
fn an_error_of_the_zone_becomes_a_zone_error() {
    let failed = TimeZone::UTC.to_zoned(jiff::civil::DateTime::MAX).and_then(|zoned| zoned.checked_add(jiff::Span::new().days(1)));
    assert!(failed.is_err());
    assert_eq!(attached_outcome(failed), Err(ZoneError));
    let fine = jiff::civil::date(2024, 1, 1).at(0, 0, 0, 0).to_zoned(TimeZone::UTC);
    let expected = fine.clone().unwrap();
    assert_eq!(attached_outcome(fine), Ok(expected));
}

#[test]
fn the_system_zone_is_found_once() {
    let mut state = SystemZone::new();
    assert!(!state.is_resolved());
    state.resolve();
    assert!(state.is_resolved());
    let found = state.zone().cloned();
    state.resolve();
    assert_eq!(state.zone().cloned(), found);
}

#[test]
fn a_given_zone_stands_for_the_system_zone() {
    let mut state = SystemZone::with_zone(new_york());
    assert!(state.is_resolved());
    state.resolve();
    assert_eq!(state.zone(), Some(&new_york()));
}

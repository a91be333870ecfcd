use calendula::time_range::{build_time_range, Date, TimeRange, TimeRangeError};

fn date(y: i32, m: u32, d: u32) -> Date {
    Date::from_ymd_opt(y, m, d).unwrap()
}

#[test]
fn both_none_returns_none() {
    assert!(build_time_range(None, None).unwrap().is_none());
}

#[test]
fn from_only() {
    let tr = build_time_range(Some(date(2026, 2, 14)), None).unwrap().unwrap();
    assert_eq!(tr.start(), Some("20260214T000000Z"));
    assert_eq!(tr.end(), None);
}

#[test]
fn to_only_is_inclusive() {
    let tr = build_time_range(None, Some(date(2026, 2, 21))).unwrap().unwrap();
    assert_eq!(tr.start(), None);
    // --to 2026-02-21 should produce end of 2026-02-22 (next day)
    assert_eq!(tr.end(), Some("20260222T000000Z"));
}

#[test]
fn both_from_and_to() {
    let tr = build_time_range(Some(date(2026, 2, 14)), Some(date(2026, 2, 21)))
        .unwrap()
        .unwrap();
    assert_eq!(tr.start(), Some("20260214T000000Z"));
    assert_eq!(tr.end(), Some("20260222T000000Z"));
}

#[test]
fn to_at_month_boundary() {
    let tr = build_time_range(None, Some(date(2026, 1, 31))).unwrap().unwrap();
    assert_eq!(tr.end(), Some("20260201T000000Z"));
}

#[test]
fn to_at_year_boundary() {
    let tr = build_time_range(None, Some(date(2026, 12, 31))).unwrap().unwrap();
    assert_eq!(tr.end(), Some("20270101T000000Z"));
}

#[test]
fn leap_day_accepted_and_shifted() {
    let tr = build_time_range(None, Some(date(2024, 2, 29))).unwrap().unwrap();
    assert_eq!(tr.end(), Some("20240301T000000Z"));
}

#[test]
fn non_leap_february_has_no_day_29() {
    assert!(Date::from_ymd_opt(2026, 2, 29).is_none());
    assert!(Date::from_ymd_opt(2026, 13, 1).is_none());
    assert!(Date::from_ymd_opt(2026, 0, 1).is_none());
    assert!(Date::from_ymd_opt(2026, 4, 31).is_none());
}

#[test]
fn five_digit_year_is_rejected() {
    let d = Date::from_ymd_opt(10000, 1, 1).unwrap();
    match build_time_range(Some(d), None) {
        Err(e) => assert_eq!(e, TimeRangeError::InvalidFormat),
        Ok(_) => panic!("a five-digit year must be rejected"),
    }
    assert_eq!(
        TimeRangeError::InvalidFormat.message(),
        "invalid date format for --from/--to"
    );
}

#[test]
fn to_at_last_representable_day_is_out_of_range() {
    let d = Date::from_ymd_opt(262142, 12, 31).unwrap();
    match build_time_range(None, Some(d)) {
        Err(e) => assert_eq!(e, TimeRangeError::ToDateOutOfRange),
        Ok(_) => panic!("the last representable day must be rejected"),
    }
    assert_eq!(
        TimeRangeError::ToDateOutOfRange.message(),
        "--to date is out of range"
    );
}

#[test]
fn range_rejects_malformed_stamp() {
    assert!(TimeRange::new(None, None).is_none());
    assert!(TimeRange::new(Some("2026-02-14"), None).is_none());
    assert!(TimeRange::new(Some("20260214T000000Z"), None).is_some());
    let tr = TimeRange::new(Some("20260214T000000Z"), Some("20260222T000000Z")).unwrap();
    assert_eq!(tr.start(), Some("20260214T000000Z"));
    assert_eq!(tr.end(), Some("20260222T000000Z"));
}

use select_monitor::clock::{Timestamp, MAX_YEAR, MIN_YEAR};

fn at(year: i32, month: u32, day: u32, hour: u32, minute: u32, second: u32) -> Timestamp {
    Timestamp::new(year, month, day, hour, minute, second).expect("the moment exists")
}

#[test]
fn timestamp_keeps_its_fields() {
    let stamp = at(2024, 5, 17, 8, 9, 10);
    assert_eq!(stamp.year(), 2024);
    assert_eq!(stamp.month(), 5);
    assert_eq!(stamp.day(), 17);
    assert_eq!(stamp.hour(), 8);
    assert_eq!(stamp.minute(), 9);
    assert_eq!(stamp.second(), 10);
}

#[test]
fn months_out_of_range_are_refused() {
    assert!(Timestamp::new(2024, 0, 1, 0, 0, 0).is_none());
    assert!(Timestamp::new(2024, 13, 1, 0, 0, 0).is_none());
    assert!(Timestamp::new(2024, 1, 1, 0, 0, 0).is_some());
    assert!(Timestamp::new(2024, 12, 31, 0, 0, 0).is_some());
}

#[test]
fn days_follow_the_length_of_the_month() {
    let lengths = [31, 28, 31, 30, 31, 30, 31, 31, 30, 31, 30, 31];
    for (index, length) in lengths.iter().enumerate() {
        let month = index as u32 + 1;
        assert!(Timestamp::new(2023, month, 0, 0, 0, 0).is_none());
        assert!(Timestamp::new(2023, month, *length, 0, 0, 0).is_some());
        assert!(Timestamp::new(2023, month, *length + 1, 0, 0, 0).is_none());
    }
}

#[test]
fn february_has_29_days_in_leap_years_only() {
    assert!(Timestamp::new(2024, 2, 29, 0, 0, 0).is_some());
    assert!(Timestamp::new(2024, 2, 30, 0, 0, 0).is_none());
    assert!(Timestamp::new(2023, 2, 29, 0, 0, 0).is_none());
    assert!(Timestamp::new(1900, 2, 29, 0, 0, 0).is_none());
    assert!(Timestamp::new(2000, 2, 29, 0, 0, 0).is_some());
    assert!(Timestamp::new(0, 2, 29, 0, 0, 0).is_some());
    assert!(Timestamp::new(-4, 2, 29, 0, 0, 0).is_some());
    assert!(Timestamp::new(-1, 2, 29, 0, 0, 0).is_none());
    assert!(Timestamp::new(-100, 2, 29, 0, 0, 0).is_none());
    assert!(Timestamp::new(-400, 2, 29, 0, 0, 0).is_some());
}

#[test]
fn times_of_day_out_of_range_are_refused() {
    assert!(Timestamp::new(2024, 1, 1, 23, 59, 59).is_some());
    assert!(Timestamp::new(2024, 1, 1, 24, 0, 0).is_none());
    assert!(Timestamp::new(2024, 1, 1, 0, 60, 0).is_none());
    assert!(Timestamp::new(2024, 1, 1, 0, 0, 60).is_none());
}

#[test]
fn years_are_bounded_as_the_calendar_library_bounds_them() {
    assert_eq!(MIN_YEAR, -262143);
    assert_eq!(MAX_YEAR, 262142);
    assert!(Timestamp::new(MIN_YEAR, 1, 1, 0, 0, 0).is_some());
    assert!(Timestamp::new(MAX_YEAR, 12, 31, 23, 59, 59).is_some());
    assert!(Timestamp::new(MIN_YEAR - 1, 12, 31, 0, 0, 0).is_none());
    assert!(Timestamp::new(MAX_YEAR + 1, 1, 1, 0, 0, 0).is_none());
    assert!(Timestamp::new(i32::MIN, 1, 1, 0, 0, 0).is_none());
    assert!(Timestamp::new(i32::MAX, 1, 1, 0, 0, 0).is_none());
}

#[test]
fn validity_agrees_with_the_calendar_library() {
    for year in [-262144, -262143, -401, -400, -100, -4, -1, 0, 1, 4, 100, 400, 1900, 1999, 2000,
        2023, 2024, 2100, 9999, 10000, 262142, 262143]
    {
        for month in 0..14u32 {
            for day in [0u32, 1, 27, 28, 29, 30, 31, 32] {
                let ours = Timestamp::new(year, month, day, 12, 30, 15).is_some();
                let theirs = chrono::NaiveDate::from_ymd_opt(year, month, day).is_some();
                assert_eq!(ours, theirs, "{}-{}-{}", year, month, day);
            }
        }
    }
    for hour in [0u32, 1, 23, 24, 25] {
        for minute in [0u32, 59, 60] {
            for second in [0u32, 59, 60, 61] {
                let ours = Timestamp::new(2024, 6, 15, hour, minute, second).is_some();
                let theirs = chrono::NaiveTime::from_hms_opt(hour, minute, second).is_some();
                assert_eq!(ours, theirs, "{}:{}:{}", hour, minute, second);
            }
        }
    }
}

#[test]
fn clock_text_is_date_space_time() {
    assert_eq!(at(2024, 1, 2, 3, 4, 5).clock_text(), "2024-01-02 03:04:05");
    assert_eq!(at(1999, 12, 31, 23, 59, 59).clock_text(), "1999-12-31 23:59:59");
    assert_eq!(at(2024, 10, 20, 10, 20, 30).clock_text(), "2024-10-20 10:20:30");
}

#[test]
fn compact_text_is_date_underscore_time() {
    assert_eq!(at(2024, 1, 2, 3, 4, 5).compact_text(), "20240102_030405");
    assert_eq!(at(1999, 12, 31, 23, 59, 59).compact_text(), "19991231_235959");
}

#[test]
fn small_years_are_padded_to_four_digits() {
    assert_eq!(at(0, 1, 1, 0, 0, 0).clock_text(), "0000-01-01 00:00:00");
    assert_eq!(at(7, 1, 1, 0, 0, 0).clock_text(), "0007-01-01 00:00:00");
    assert_eq!(at(999, 1, 1, 0, 0, 0).clock_text(), "0999-01-01 00:00:00");
    assert_eq!(at(1000, 1, 1, 0, 0, 0).clock_text(), "1000-01-01 00:00:00");
    assert_eq!(at(9999, 12, 31, 0, 0, 0).compact_text(), "99991231_000000");
}

#[test]
fn years_beyond_four_digits_carry_a_sign() {
    assert_eq!(at(10000, 1, 1, 0, 0, 0).clock_text(), "+10000-01-01 00:00:00");
    assert_eq!(at(10000, 1, 1, 0, 0, 0).compact_text(), "+100000101_000000");
    assert_eq!(at(262142, 12, 31, 23, 59, 59).clock_text(), "+262142-12-31 23:59:59");
    assert_eq!(at(-1, 1, 1, 0, 0, 0).clock_text(), "-0001-01-01 00:00:00");
    assert_eq!(at(-45, 3, 15, 0, 0, 0).compact_text(), "-00450315_000000");
    assert_eq!(at(-12345, 1, 1, 0, 0, 0).clock_text(), "-12345-01-01 00:00:00");
    assert_eq!(at(-262143, 1, 1, 0, 0, 0).clock_text(), "-262143-01-01 00:00:00");
}

#[test]
fn now_is_a_moment_that_exists() {
    let now = Timestamp::now();
    let again =
        Timestamp::new(now.year(), now.month(), now.day(), now.hour(), now.minute(), now.second());
    assert_eq!(again, Some(now));
    assert!(now.year() >= 1969);
}

use chrono::TimeZone;
use chrono::Utc;
use rust_backend::time::Timestamp;
use rust_backend::time::MAX_YEAR;
use rust_backend::time::MIN_YEAR;

fn seconds(year: i32, month: u32, day: u32, hour: u32, min: u32, sec: u32) -> Option<i64> {
    Timestamp::from_utc(year, month, day, hour, min, sec).map(|t| t.unix_seconds)
}

#[test]
fn sample_dates_in_seconds() {
    assert_eq!(seconds(2024, 7, 21, 12, 0, 0), Some(1721563200));
    assert_eq!(seconds(2024, 7, 19, 12, 0, 0), Some(1721390400));
    assert_eq!(seconds(2024, 6, 1, 0, 0, 0), Some(1717200000));
}

#[test]
fn the_epoch_is_second_zero() {
    assert_eq!(seconds(1970, 1, 1, 0, 0, 0), Some(0));
    assert_eq!(seconds(1970, 1, 1, 0, 0, 1), Some(1));
    assert_eq!(seconds(1969, 12, 31, 23, 59, 59), Some(-1));
}

#[test]
fn each_field_counts() {
    assert_eq!(seconds(2015, 5, 15, 0, 0, 0), Some(1431648000));
    assert_eq!(seconds(2015, 5, 15, 1, 0, 0), Some(1431648000 + 3600));
    assert_eq!(seconds(2015, 5, 15, 0, 1, 0), Some(1431648000 + 60));
    assert_eq!(seconds(2015, 5, 15, 0, 0, 1), Some(1431648000 + 1));
    assert_eq!(seconds(2015, 5, 16, 0, 0, 0), Some(1431648000 + 86400));
}

#[test]
fn leap_days_exist_in_leap_years_only() {
    assert_eq!(seconds(2000, 2, 29, 0, 0, 0), Some(951782400));
    assert_eq!(seconds(2024, 2, 29, 23, 59, 59), Some(1709251199));
    assert_eq!(seconds(2023, 2, 29, 0, 0, 0), None);
    assert_eq!(seconds(1900, 2, 29, 0, 0, 0), None);
    assert_eq!(seconds(2100, 2, 29, 0, 0, 0), None);
    assert!(seconds(-4, 2, 29, 0, 0, 0).is_some());
    assert!(seconds(0, 2, 29, 0, 0, 0).is_some());
    assert!(seconds(-400, 2, 29, 0, 0, 0).is_some());
    assert_eq!(seconds(-100, 2, 29, 0, 0, 0), None);
    assert_eq!(seconds(-1, 2, 29, 0, 0, 0), None);
}

#[test]
fn days_that_do_not_exist_give_none() {
    assert_eq!(seconds(2024, 2, 30, 0, 0, 0), None);
    assert_eq!(seconds(2024, 4, 31, 0, 0, 0), None);
    assert_eq!(seconds(2024, 6, 31, 0, 0, 0), None);
    assert_eq!(seconds(2024, 9, 31, 0, 0, 0), None);
    assert_eq!(seconds(2024, 11, 31, 0, 0, 0), None);
    assert_eq!(seconds(2024, 1, 32, 0, 0, 0), None);
    assert_eq!(seconds(2024, 1, 0, 0, 0, 0), None);
    assert_eq!(seconds(2024, 0, 1, 0, 0, 0), None);
    assert_eq!(seconds(2024, 13, 1, 0, 0, 0), None);
}

#[test]
fn last_day_of_each_month_exists() {
    let lengths = [31, 29, 31, 30, 31, 30, 31, 31, 30, 31, 30, 31];
    for (index, length) in lengths.iter().enumerate() {
        let month = index as u32 + 1;
        assert!(seconds(2024, month, *length, 0, 0, 0).is_some(), "month {month}");
        assert!(seconds(2024, month, *length + 1, 0, 0, 0).is_none(), "month {month}");
    }
    assert!(seconds(2023, 2, 28, 0, 0, 0).is_some());
}

#[test]
fn times_that_do_not_exist_give_none() {
    assert_eq!(seconds(2024, 7, 21, 24, 0, 0), None);
    assert_eq!(seconds(2024, 7, 21, 0, 60, 0), None);
    assert_eq!(seconds(2024, 7, 21, 0, 0, 60), None);
    assert!(seconds(2024, 7, 21, 23, 59, 59).is_some());
}

#[test]
fn years_out_of_range_give_none() {
    assert!(seconds(MAX_YEAR, 12, 31, 23, 59, 59).is_some());
    assert!(seconds(MIN_YEAR, 1, 1, 0, 0, 0).is_some());
    assert_eq!(seconds(MAX_YEAR + 1, 1, 1, 0, 0, 0), None);
    assert_eq!(seconds(MIN_YEAR - 1, 12, 31, 23, 59, 59), None);
    assert_eq!(seconds(i32::MAX, 1, 1, 0, 0, 0), None);
    assert_eq!(seconds(i32::MIN, 1, 1, 0, 0, 0), None);
}

#[test]
fn timestamps_agree_with_the_calendar_library() {
    for (year, month, day, hour, min, sec) in
        [(2024, 7, 21, 12, 0, 0), (2024, 7, 19, 12, 0, 0), (2024, 6, 1, 0, 0, 0), (1, 1, 1, 0, 0, 0)]
    {
        let expected = Utc.with_ymd_and_hms(year, month, day, hour, min, sec).unwrap().timestamp();
        assert_eq!(seconds(year, month, day, hour, min, sec), Some(expected));
    }
}

#[test]
fn same_date_gives_same_timestamp() {
    assert_eq!(Timestamp::from_utc(2024, 7, 21, 12, 0, 0), Timestamp::from_utc(2024, 7, 21, 12, 0, 0));
    assert_ne!(Timestamp::from_utc(2024, 7, 21, 12, 0, 0), Timestamp::from_utc(2024, 7, 19, 12, 0, 0));
}

use chrono::{NaiveDate, NaiveDateTime};
use zen_clock::wall_clock::WallClock;

fn naive(year: i32, month: u32, day: u32, hour: u32, minute: u32, second: u32, nano: u32) -> NaiveDateTime {
    NaiveDate::from_ymd_opt(year, month, day)
        .unwrap()
        .and_hms_nano_opt(hour, minute, second, nano)
        .unwrap()
}

fn valid() -> WallClock {
    WallClock { hour: 3, minute: 0, second: 0, nanosecond: 0, day: 1, month: 1, year: 2024 }
}

#[test]
fn from_naive_reads_every_field() {
    let clock = WallClock::from_naive(&naive(2024, 2, 29, 13, 37, 42, 123_456_789));
    assert_eq!(
        clock,
        WallClock {
            hour: 13,
            minute: 37,
            second: 42,
            nanosecond: 123_456_789,
            day: 29,
            month: 2,
            year: 2024,
        }
    );
    assert!(clock.is_valid());
}

#[test]
fn from_naive_at_the_ends_of_the_ranges() {
    let first = WallClock::from_naive(&naive(1970, 1, 1, 0, 0, 0, 0));
    assert_eq!(
        first,
        WallClock { hour: 0, minute: 0, second: 0, nanosecond: 0, day: 1, month: 1, year: 1970 }
    );
    assert!(first.is_valid());
    let last = WallClock::from_naive(&naive(-44, 12, 31, 23, 59, 59, 999_999_999));
    assert_eq!(
        last,
        WallClock {
            hour: 23,
            minute: 59,
            second: 59,
            nanosecond: 999_999_999,
            day: 31,
            month: 12,
            year: -44,
        }
    );
    assert!(last.is_valid());
}

#[test]
fn from_naive_keeps_a_leap_second() {
    let clock = WallClock::from_naive(&naive(2016, 12, 31, 23, 59, 59, 1_500_000_000));
    assert_eq!(clock.second, 59);
    assert_eq!(clock.nanosecond, 1_500_000_000);
    assert!(clock.is_valid());
}

#[test]
fn from_naive_reads_the_same_value_the_same_way() {
    let at = naive(2031, 7, 4, 18, 5, 9, 42);
    assert_eq!(WallClock::from_naive(&at), WallClock::from_naive(&at));
    let copy = at;
    assert_eq!(WallClock::from_naive(&at), WallClock::from_naive(&copy));
}

#[test]
fn from_naive_of_the_local_clock_is_valid() {
    let at = chrono::Local::now().naive_local();
    let clock = WallClock::from_naive(&at);
    assert!(clock.is_valid());
    assert!(clock.hour < 24);
    assert!(clock.minute < 60);
    assert!(clock.second < 60);
    assert!(clock.nanosecond < 2_000_000_000);
    assert!((1..=31).contains(&clock.day));
    assert!((1..=12).contains(&clock.month));
}

#[test]
fn is_valid_accepts_the_range_limits() {
    assert!(valid().is_valid());
    let low = WallClock { hour: 0, minute: 0, second: 0, nanosecond: 0, day: 1, month: 1, year: i32::MIN };
    assert!(low.is_valid());
    let high = WallClock {
        hour: 23,
        minute: 59,
        second: 59,
        nanosecond: 1_999_999_999,
        day: 31,
        month: 12,
        year: i32::MAX,
    };
    assert!(high.is_valid());
}

#[test]
fn is_valid_rejects_each_field_out_of_range() {
    assert!(!WallClock { hour: 24, ..valid() }.is_valid());
    assert!(!WallClock { minute: 60, ..valid() }.is_valid());
    assert!(!WallClock { second: 60, ..valid() }.is_valid());
    assert!(!WallClock { nanosecond: 2_000_000_000, ..valid() }.is_valid());
    assert!(!WallClock { day: 0, ..valid() }.is_valid());
    assert!(!WallClock { day: 32, ..valid() }.is_valid());
    assert!(!WallClock { month: 0, ..valid() }.is_valid());
    assert!(!WallClock { month: 13, ..valid() }.is_valid());
}

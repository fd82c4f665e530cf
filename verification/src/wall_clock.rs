//! The wall-clock reading that one frame is drawn from.

use vstd::prelude::*;
use chrono::{Datelike, NaiveDateTime, Timelike};

verus! {

/// One reading of the local clock and calendar. A frame is computed from a
/// single reading and keeps nothing from the frame before.
#[derive(Clone, Copy, Debug, PartialEq, Eq, Structural)]
pub struct WallClock {
    /// Hour of the day, 0 to 23.
    pub hour: u32,
    /// Minute of the hour, 0 to 59.
    pub minute: u32,
    /// Second of the minute, 0 to 59.
    pub second: u32,
    /// Nanoseconds since the whole second. Values from 1,000,000,000 on
    /// stand for a leap second, so the fraction stays below two seconds.
    pub nanosecond: u32,
    /// Day of the month, 1 to 31.
    pub day: u32,
    /// Month of the year, 1 to 12.
    pub month: u32,
    /// Calendar year.
    pub year: i32,
}

impl WallClock {
    /// Every field lies in the range of a real clock and calendar.
    pub open spec fn wf(&self) -> bool {
        &&& self.hour < 24
        &&& self.minute < 60
        &&& self.second < 60
        &&& self.nanosecond < 2_000_000_000
        &&& 1 <= self.day <= 31
        &&& 1 <= self.month <= 12
    }

    /// The reading that the date and time `at` shows, field by field.
    pub open spec fn of(at: NaiveDateTime) -> WallClock {
        WallClock {
            hour: hour_of(at),
            minute: minute_of(at),
            second: second_of(at),
            nanosecond: nanosecond_of(at),
            day: day_of(at),
            month: month_of(at),
            year: year_of(at),
        }
    }

    /// Checks a reading that was filled in field by field.
    pub fn is_valid(&self) -> (ok: bool)
        ensures
            ok == self.wf(),
    {
        self.hour < 24 && self.minute < 60 && self.second < 60 && self.nanosecond < 2_000_000_000
            && 1 <= self.day && self.day <= 31 && 1 <= self.month && self.month <= 12
    }

    /// Takes the reading from a date and time of the local clock.
    pub fn from_naive(at: &NaiveDateTime) -> (clock: WallClock)
        ensures
            clock == WallClock::of(*at),
            clock.wf(),
    {
        WallClock {
            hour: naive_hour(at),
            minute: naive_minute(at),
            second: naive_second(at),
            nanosecond: naive_nanosecond(at),
            day: naive_day(at),
            month: naive_month(at),
            year: naive_year(at),
        }
    }
}

/// chrono's `NaiveDateTime`, a calendar date with a time of day and no zone.
/// Nothing inside it is visible to the verifier; the functions below read it.
#[verifier::external_type_specification]
#[verifier::external_body]
pub struct ExNaiveDateTime(NaiveDateTime);

/// What `Timelike::hour` returns for `at`.
pub uninterp spec fn hour_of(at: NaiveDateTime) -> u32;

/// What `Timelike::minute` returns for `at`.
pub uninterp spec fn minute_of(at: NaiveDateTime) -> u32;

/// What `Timelike::second` returns for `at`.
pub uninterp spec fn second_of(at: NaiveDateTime) -> u32;

/// What `Timelike::nanosecond` returns for `at`.
pub uninterp spec fn nanosecond_of(at: NaiveDateTime) -> u32;

/// What `Datelike::day` returns for `at`.
pub uninterp spec fn day_of(at: NaiveDateTime) -> u32;

/// What `Datelike::month` returns for `at`.
pub uninterp spec fn month_of(at: NaiveDateTime) -> u32;

/// What `Datelike::year` returns for `at`.
pub uninterp spec fn year_of(at: NaiveDateTime) -> i32;

/// Calls `Timelike::hour` on a `NaiveDateTime`. The result is a function of
/// the value alone, and chrono documents it as the hour number from 0 to 23.
#[verifier::external_body]
fn naive_hour(at: &NaiveDateTime) -> (hour: u32)
    ensures
        hour == hour_of(*at),
        hour < 24,
{
    at.hour()
}

/// Calls `Timelike::minute` on a `NaiveDateTime`. The result is a function of
/// the value alone, and chrono documents it as the minute number from 0 to 59.
#[verifier::external_body]
fn naive_minute(at: &NaiveDateTime) -> (minute: u32)
    ensures
        minute == minute_of(*at),
        minute < 60,
{
    at.minute()
}

/// Calls `Timelike::second` on a `NaiveDateTime`. The result is a function of
/// the value alone, and chrono documents it as the second number from 0 to 59.
#[verifier::external_body]
fn naive_second(at: &NaiveDateTime) -> (second: u32)
    ensures
        second == second_of(*at),
        second < 60,
{
    at.second()
}

/// Calls `Timelike::nanosecond` on a `NaiveDateTime`. The result is a function
/// of the value alone: the nanoseconds since the whole second, where chrono
/// reserves 1,000,000,000 to 1,999,999,999 for a leap second.
#[verifier::external_body]
fn naive_nanosecond(at: &NaiveDateTime) -> (nanosecond: u32)
    ensures
        nanosecond == nanosecond_of(*at),
        nanosecond < 2_000_000_000,
{
    at.nanosecond()
}

/// Calls `Datelike::day` on a `NaiveDateTime`. The result is a function of
/// the value alone, and chrono documents it as the day of the month from 1
/// to 31.
#[verifier::external_body]
fn naive_day(at: &NaiveDateTime) -> (day: u32)
    ensures
        day == day_of(*at),
        1 <= day <= 31,
{
    at.day()
}

/// Calls `Datelike::month` on a `NaiveDateTime`. The result is a function of
/// the value alone, and chrono documents it as the month number from 1 to 12.
#[verifier::external_body]
fn naive_month(at: &NaiveDateTime) -> (month: u32)
    ensures
        month == month_of(*at),
        1 <= month <= 12,
{
    at.month()
}

/// Calls `Datelike::year` on a `NaiveDateTime`. The result is a function of
/// the value alone: the calendar year. No bound is claimed.
#[verifier::external_body]
fn naive_year(at: &NaiveDateTime) -> (year: i32)
    ensures
        year == year_of(*at),
{
    at.year()
}

} // verus!

//! What the raw values of the temporal logical types stand for: times of day
//! and instants of the proleptic Gregorian calendar.
use chrono::{Datelike, NaiveDateTime, NaiveTime, Timelike};
use vstd::prelude::*;

verus! {

/// Number of seconds in a day.
pub const SECONDS_IN_DAY: i64 = 86_400;

/// Number of milliseconds in a second.
pub const MILLISECONDS: i64 = 1_000;

/// Number of microseconds in a second.
pub const MICROSECONDS: i64 = 1_000_000;

/// Number of nanoseconds in a second.
pub const NANOSECONDS: i64 = 1_000_000_000;

/// The first year that a calendar date can have.
pub const MIN_YEAR: i32 = -262_143;

/// The last year that a calendar date can have.
pub const MAX_YEAR: i32 = 262_142;

/// The number of days from 1 January 1970 to 1 January of `year` in the
/// proleptic Gregorian calendar, in which every fourth year is a leap year
/// but for the centuries that 400 does not divide. Year 0 is 1 BCE.
pub open spec fn days_before_year(year: int) -> int {
    365 * (year - 1970) + ((year - 1) / 4 - (year - 1) / 100 + (year - 1) / 400) - 477
}

/// Whether `year` is the year of the day that lies `day` days after 1 January 1970.
pub open spec fn is_year_of(year: int, day: int) -> bool {
    days_before_year(year) <= day < days_before_year(year + 1)
}

/// Whether the instant `secs` seconds after the UNIX epoch falls on a date
/// that the calendar can hold.
pub open spec fn timestamp_in_range(secs: int) -> bool {
    days_before_year(MIN_YEAR as int) <= secs / 86_400 < days_before_year(MAX_YEAR + 1)
}

/// Whether `v`, counted in units of which a second has `per_second`, is a time of day.
pub open spec fn time_valid(v: int, per_second: int) -> bool {
    0 <= v < 86_400 * per_second
}

/// Whether `v`, counted from the UNIX epoch in units of which a second has
/// `per_second`, is an instant that the calendar can hold whose fraction of a
/// second can be told: before the epoch only whole seconds are.
pub open spec fn instant_valid(v: int, per_second: int) -> bool {
    (v >= 0 || v % per_second == 0) && timestamp_in_range(v / per_second)
}

/// The hour of the time of day `secs` seconds after midnight.
pub open spec fn hour_of_time(secs: int) -> int {
    secs / 3600
}

/// The hour of the day of the instant `secs` seconds after the UNIX epoch.
pub open spec fn hour_of_timestamp(secs: int) -> int {
    (secs % 86_400) / 3600
}

/// A time of day: whole seconds since midnight and the nanoseconds since the
/// last whole second.
#[derive(Clone, Copy, Debug)]
pub struct TimeOfDay {
    pub secs: u32,
    pub nano: u32,
}

/// An instant: whole seconds since the UNIX epoch and the nanoseconds since
/// the last whole second.
#[derive(Clone, Copy, Debug)]
pub struct Instant {
    pub secs: i64,
    pub nano: u32,
}

/// The hour of `chrono::NaiveTime::from_num_seconds_from_midnight(secs, nano)`,
/// which is the number of whole hours in `secs`. The constructor panics on a
/// second count of a day or more and on two seconds of nanoseconds or more.
#[verifier::external_body]
#[allow(deprecated)]
fn naive_time_hour(secs: u32, nano: u32) -> (hour: u32)
    requires
        secs < 86_400,
        nano < 1_000_000_000,
    ensures
        hour == hour_of_time(secs as int),
{
    NaiveTime::from_num_seconds_from_midnight(secs, nano).hour()
}

/// The hour of `chrono::NaiveDateTime::from_timestamp(secs, nano)`, which is
/// the number of whole hours in the seconds since the last midnight. The
/// constructor panics where the date is out of the calendar's range and on
/// two seconds of nanoseconds or more.
#[verifier::external_body]
#[allow(deprecated)]
fn naive_datetime_hour(secs: i64, nano: u32) -> (hour: u32)
    requires
        timestamp_in_range(secs as int),
        nano < 1_000_000_000,
    ensures
        hour == hour_of_timestamp(secs as int),
{
    NaiveDateTime::from_timestamp(secs, nano).hour()
}

/// The year of `chrono::NaiveDateTime::from_timestamp(secs, nano)`: the year
/// of the proleptic Gregorian calendar in which the day of the instant lies.
/// The constructor panics where the date is out of the calendar's range and
/// on two seconds of nanoseconds or more.
#[verifier::external_body]
#[allow(deprecated)]
fn naive_datetime_year(secs: i64, nano: u32) -> (year: i32)
    requires
        timestamp_in_range(secs as int),
        nano < 1_000_000_000,
    ensures
        is_year_of(year as int, secs as int / 86_400),
{
    NaiveDateTime::from_timestamp(secs, nano).year()
}

impl TimeOfDay {
    /// The time lies within one day.
    pub open spec fn wf(&self) -> bool {
        self.secs < 86_400 && self.nano < 1_000_000_000
    }

    /// The hour of the day, from 0 to 23.
    pub fn hour(&self) -> (hour: u32)
        requires
            self.wf(),
        ensures
            hour == hour_of_time(self.secs as int),
            hour < 24,
    {
        naive_time_hour(self.secs, self.nano)
    }
}

impl Instant {
    /// The instant falls on a date that the calendar can hold.
    pub open spec fn wf(&self) -> bool {
        timestamp_in_range(self.secs as int) && self.nano < 1_000_000_000
    }

    /// The hour of the day, from 0 to 23.
    pub fn hour(&self) -> (hour: u32)
        requires
            self.wf(),
        ensures
            hour == hour_of_timestamp(self.secs as int),
            hour < 24,
    {
        naive_datetime_hour(self.secs, self.nano)
    }

    /// The year of the proleptic Gregorian calendar.
    pub fn year(&self) -> (year: i32)
        requires
            self.wf(),
        ensures
            is_year_of(year as int, self.secs as int / 86_400),
    {
        naive_datetime_year(self.secs, self.nano)
    }
}

/// The time of day of a count of seconds since midnight.
pub fn time32s_to_time(v: i32) -> (t: TimeOfDay)
    requires
        time_valid(v as int, 1),
    ensures
        t.wf(),
        t.secs == v,
        t.nano == 0,
{
    TimeOfDay { secs: v as u32, nano: 0 }
}

/// The time of day of a count of milliseconds since midnight.
pub fn time32ms_to_time(v: i32) -> (t: TimeOfDay)
    requires
        time_valid(v as int, 1_000),
    ensures
        t.wf(),
        t.secs == v / 1_000,
        t.nano == (v % 1_000) * 1_000_000,
{
    let v = v as i64;
    TimeOfDay { secs: (v / MILLISECONDS) as u32, nano: (v % MILLISECONDS * MICROSECONDS) as u32 }
}

/// The time of day of a count of microseconds since midnight in a 32-bit
/// value, which reaches some 35 minutes past midnight.
pub fn time32us_to_time(v: i32) -> (t: TimeOfDay)
    requires
        time_valid(v as int, 1_000_000),
    ensures
        t.wf(),
        t.secs == v / 1_000_000,
        t.nano == (v % 1_000_000) * 1_000,
{
    let v = v as i64;
    TimeOfDay { secs: (v / MICROSECONDS) as u32, nano: (v % MICROSECONDS * MILLISECONDS) as u32 }
}

/// The time of day of a count of microseconds since midnight.
pub fn time64us_to_time(v: i64) -> (t: TimeOfDay)
    requires
        time_valid(v as int, 1_000_000),
    ensures
        t.wf(),
        t.secs == v / 1_000_000,
        t.nano == (v % 1_000_000) * 1_000,
{
    TimeOfDay { secs: (v / MICROSECONDS) as u32, nano: (v % MICROSECONDS * MILLISECONDS) as u32 }
}

/// The time of day of a count of nanoseconds since midnight.
pub fn time64ns_to_time(v: i64) -> (t: TimeOfDay)
    requires
        time_valid(v as int, 1_000_000_000),
    ensures
        t.wf(),
        t.secs == v / 1_000_000_000,
        t.nano == v % 1_000_000_000,
{
    TimeOfDay { secs: (v / NANOSECONDS) as u32, nano: (v % NANOSECONDS) as u32 }
}

/// The instant at midnight of the day that lies `v` days after the UNIX epoch.
pub fn date32_to_datetime(v: i32) -> (t: Instant)
    requires
        timestamp_in_range(v * 86_400),
    ensures
        t.wf(),
        t.secs == v * 86_400,
        t.nano == 0,
{
    Instant { secs: v as i64 * SECONDS_IN_DAY, nano: 0 }
}

/// The instant `v` milliseconds after the UNIX epoch.
pub fn date64_to_datetime(v: i64) -> (t: Instant)
    requires
        instant_valid(v as int, 1_000),
    ensures
        t.wf(),
        t.secs == v as int / 1_000,
        t.nano == (v as int % 1_000) * 1_000_000,
{
    Instant { secs: v / MILLISECONDS, nano: (v % MILLISECONDS * MICROSECONDS) as u32 }
}

/// The instant `v` seconds after the UNIX epoch.
pub fn timestamp_s_to_datetime(v: i64) -> (t: Instant)
    requires
        instant_valid(v as int, 1),
    ensures
        t.wf(),
        t.secs == v,
        t.nano == 0,
{
    Instant { secs: v, nano: 0 }
}

/// The instant `v` milliseconds after the UNIX epoch.
pub fn timestamp_ms_to_datetime(v: i64) -> (t: Instant)
    requires
        instant_valid(v as int, 1_000),
    ensures
        t.wf(),
        t.secs == v as int / 1_000,
        t.nano == (v as int % 1_000) * 1_000_000,
{
    Instant { secs: v / MILLISECONDS, nano: (v % MILLISECONDS * MICROSECONDS) as u32 }
}

/// The instant `v` microseconds after the UNIX epoch.
pub fn timestamp_us_to_datetime(v: i64) -> (t: Instant)
    requires
        instant_valid(v as int, 1_000_000),
    ensures
        t.wf(),
        t.secs == v as int / 1_000_000,
        t.nano == (v as int % 1_000_000) * 1_000,
{
    Instant { secs: v / MICROSECONDS, nano: (v % MICROSECONDS * MILLISECONDS) as u32 }
}

/// The instant `v` nanoseconds after the UNIX epoch.
pub fn timestamp_ns_to_datetime(v: i64) -> (t: Instant)
    requires
        instant_valid(v as int, 1_000_000_000),
    ensures
        t.wf(),
        t.secs == v as int / 1_000_000_000,
        t.nano == v as int % 1_000_000_000,
{
    Instant { secs: v / NANOSECONDS, nano: (v % NANOSECONDS) as u32 }
}

} // verus!

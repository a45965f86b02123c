//! The values that a format is applied to: a date, a time of day and an
//! offset from UTC, each as the plain numbers that rendering reads.
//!
//! The numbers of a `chrono::NaiveDate`, a `chrono::NaiveTime` and a
//! `chrono::FixedOffset` are read through the functions of `chrono`; what
//! is said of those functions here is taken from their documentation.
use crate::digits::{magnitude, render_number};
use crate::util::offset_text;
use chrono::format::Pad;
use chrono::{Datelike, FixedOffset, NaiveDate, NaiveTime, Timelike};
use vstd::prelude::*;

verus! {

/// `chrono::NaiveDate`: a date of the proleptic Gregorian calendar.
#[verifier::external_type_specification]
#[verifier::external_body]
pub struct ExNaiveDate(NaiveDate);

/// `chrono::NaiveTime`: a time of day.
#[verifier::external_type_specification]
#[verifier::external_body]
pub struct ExNaiveTime(NaiveTime);

/// `chrono::FixedOffset`: an offset from UTC.
#[verifier::external_type_specification]
#[verifier::external_body]
pub struct ExFixedOffset(FixedOffset);

/// `Datelike::year` of a `NaiveDate`: the year of the date.
#[verifier::external_body]
fn naive_year(date: &NaiveDate) -> (year: i32) {
    date.year()
}

/// `Datelike::month` of a `NaiveDate`: the month, from 1 to 12.
#[verifier::external_body]
fn naive_month(date: &NaiveDate) -> (month: u32)
    ensures
        1 <= month <= 12,
{
    date.month()
}

/// `Datelike::day` of a `NaiveDate`: the day of the month, from 1 to 31.
#[verifier::external_body]
fn naive_day(date: &NaiveDate) -> (day: u32)
    ensures
        1 <= day <= 31,
{
    date.day()
}

/// `Datelike::ordinal` of a `NaiveDate`: the day of the year, from 1 to
/// 366.
#[verifier::external_body]
fn naive_ordinal(date: &NaiveDate) -> (ordinal: u32)
    ensures
        1 <= ordinal <= 366,
{
    date.ordinal()
}

/// `Weekday::num_days_from_monday` of the `Datelike::weekday` of a
/// `NaiveDate`: 0 for Monday up to 6 for Sunday.
#[verifier::external_body]
fn naive_weekday(date: &NaiveDate) -> (weekday: u32)
    ensures
        weekday <= 6,
{
    date.weekday().num_days_from_monday()
}

/// `IsoWeek::year` of the `Datelike::iso_week` of a `NaiveDate`: the year
/// that the ISO 8601 week of the date belongs to.
#[verifier::external_body]
fn naive_iso_year(date: &NaiveDate) -> (year: i32) {
    date.iso_week().year()
}

/// `IsoWeek::week` of the `Datelike::iso_week` of a `NaiveDate`: the number
/// of the ISO 8601 week, from 1 to 53.
#[verifier::external_body]
fn naive_iso_week(date: &NaiveDate) -> (week: u32)
    ensures
        1 <= week <= 53,
{
    date.iso_week().week()
}

/// `Datelike::num_days_from_ce` of a `NaiveDate`: the number of the day,
/// where 1 January of year 1 is day 1.
#[verifier::external_body]
fn naive_days_from_ce(date: &NaiveDate) -> (days: i32) {
    date.num_days_from_ce()
}

/// `Timelike::hour` of a `NaiveTime`: the hour, from 0 to 23.
#[verifier::external_body]
fn naive_hour(time: &NaiveTime) -> (hour: u32)
    ensures
        hour <= 23,
{
    time.hour()
}

/// `Timelike::minute` of a `NaiveTime`: the minute, from 0 to 59.
#[verifier::external_body]
fn naive_minute(time: &NaiveTime) -> (minute: u32)
    ensures
        minute <= 59,
{
    time.minute()
}

/// `Timelike::second` of a `NaiveTime`: the second, from 0 to 59, also
/// during a leap second.
#[verifier::external_body]
fn naive_second(time: &NaiveTime) -> (second: u32)
    ensures
        second <= 59,
{
    time.second()
}

/// `Timelike::nanosecond` of a `NaiveTime`: the nanoseconds since the whole
/// second, up to 1,999,999,999; from 1,000,000,000 on they stand for a leap
/// second.
#[verifier::external_body]
fn naive_nanosecond(time: &NaiveTime) -> (nanosecond: u32)
    ensures
        nanosecond < 2_000_000_000,
{
    time.nanosecond()
}

/// The text that an offset of `seconds` seconds to the east is displayed
/// as: sign, hours and minutes as in `+09:30`, and after them the seconds,
/// as in `+09:30:15`, where the offset is not one of whole minutes.
pub open spec fn offset_name(seconds: int) -> Seq<char> {
    if magnitude(seconds) % 60 == 0 {
        offset_text(seconds, false, true)
    } else {
        offset_text(seconds, false, true) + seq![':'] + render_number(
            magnitude(seconds) as int % 60,
            Pad::Zero,
            2,
            false,
        )
    }
}

/// `FixedOffset::local_minus_utc` and the text that the `FixedOffset`
/// displays as, through `ToString`. The first is the seconds to add to UTC
/// to get the local time, less than a day either way; the second shows
/// them with their sign as hours and minutes of two digits, and as seconds
/// too where there are any.
#[verifier::external_body]
fn fixed_parts(offset: &FixedOffset) -> (parts: (i32, String))
    ensures
        -86_400 < parts.0 < 86_400,
        parts.1@ == offset_name(parts.0 as int),
{
    (offset.local_minus_utc(), offset.to_string())
}

/// A date of the proleptic Gregorian calendar, with what the calendar says
/// of it.
#[derive(Clone, Copy, Debug, PartialEq, Eq, Structural)]
pub struct Date {
    /// The year; 1 BCE is year 0.
    pub year: i32,
    /// The month, 1 to 12.
    pub month: u32,
    /// The day of the month, 1 to 31.
    pub day: u32,
    /// The day of the year, 1 to 366.
    pub ordinal: u32,
    /// The day of the week as the number of days since Monday, 0 to 6.
    pub weekday: u32,
    /// The year that the ISO 8601 week of this date belongs to.
    pub iso_year: i32,
    /// The number of the ISO 8601 week, 1 to 53.
    pub iso_week: u32,
    /// The number of the day, where 1 January of year 1 is day 1.
    pub days_from_ce: i32,
}

impl Date {
    /// The numbers of a `chrono::NaiveDate`.
    pub fn from_naive(date: &NaiveDate) -> (made: Date)
        ensures
            made.wf(),
    {
        Date {
            year: naive_year(date),
            month: naive_month(date),
            day: naive_day(date),
            ordinal: naive_ordinal(date),
            weekday: naive_weekday(date),
            iso_year: naive_iso_year(date),
            iso_week: naive_iso_week(date),
            days_from_ce: naive_days_from_ce(date),
        }
    }

    /// Whether every number is in the range of its field.
    pub open spec fn wf(&self) -> bool {
        &&& 1 <= self.month <= 12
        &&& 1 <= self.day <= 31
        &&& 1 <= self.ordinal <= 366
        &&& self.weekday <= 6
        &&& 1 <= self.iso_week <= 53
    }

    /// Whether every number is in the range of its field.
    pub fn is_valid(&self) -> (valid: bool)
        ensures
            valid == self.wf(),
    {
        1 <= self.month && self.month <= 12 && 1 <= self.day && self.day <= 31 && 1
            <= self.ordinal && self.ordinal <= 366 && self.weekday <= 6 && 1 <= self.iso_week
            && self.iso_week <= 53
    }
}

/// A time of day.
#[derive(Clone, Copy, Debug, PartialEq, Eq, Structural)]
pub struct Time {
    /// The hour, 0 to 23.
    pub hour: u32,
    /// The minute, 0 to 59.
    pub minute: u32,
    /// The second, 0 to 59.
    pub second: u32,
    /// The nanoseconds since the whole second, below 2,000,000,000: from
    /// 1,000,000,000 on they stand for a leap second.
    pub nanosecond: u32,
}

impl Time {
    /// The numbers of a `chrono::NaiveTime`.
    pub fn from_naive(time: &NaiveTime) -> (made: Time)
        ensures
            made.wf(),
    {
        Time {
            hour: naive_hour(time),
            minute: naive_minute(time),
            second: naive_second(time),
            nanosecond: naive_nanosecond(time),
        }
    }

    /// Whether every number is in the range of its field.
    pub open spec fn wf(&self) -> bool {
        &&& self.hour <= 23
        &&& self.minute <= 59
        &&& self.second <= 59
        &&& self.nanosecond < 2_000_000_000
    }

    /// Whether every number is in the range of its field.
    pub fn is_valid(&self) -> (valid: bool)
        ensures
            valid == self.wf(),
    {
        self.hour <= 23 && self.minute <= 59 && self.second <= 59 && self.nanosecond
            < 2_000_000_000
    }
}

/// An offset from UTC, with the name it is shown under.
#[derive(Clone, Debug)]
pub struct Offset {
    /// The name of the offset or time zone.
    pub name: String,
    /// The seconds to add to UTC to get the local time: positive to the
    /// east.
    pub seconds: i32,
}

impl Offset {
    /// The seconds of a `chrono::FixedOffset`, under the name that it
    /// displays as: the offset itself, as in `+09:30`.
    pub fn from_fixed(offset: &FixedOffset) -> (made: Offset)
        ensures
            -86_400 < made.seconds < 86_400,
            made.name@ == offset_name(made.seconds as int),
    {
        let (seconds, name) = fixed_parts(offset);
        Offset { name, seconds }
    }
}

/// A value that may be absent, by reference.
pub open spec fn borrowed<T>(value: &Option<T>) -> Option<&T> {
    match value {
        Some(v) => Some(v),
        None => None,
    }
}

/// Whether a date that may be absent is valid where it is present.
pub open spec fn date_ok(date: Option<&Date>) -> bool {
    date matches Some(d) ==> d.wf()
}

} // verus!

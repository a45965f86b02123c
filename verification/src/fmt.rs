//! Rendering of a format, item by item.
use crate::digits::{fill_len, push_number, render_number, sign_of};
use crate::item::FormatError;
use crate::locales::{default_len, Category, Locales};
use crate::util::{name_in, normalize, normalized, offset_text, resolve, write_local_minus_utc};
use crate::value::{date_ok, Date, Offset, Time};
use chrono::format::{Fixed, Item, Numeric, Pad};
use vstd::prelude::*;
use vstd::string::*;

verus! {

/// `num_integer::div_floor` on 64-bit numbers: the quotient rounded towards
/// negative infinity. It is stated for a positive divisor.
#[verifier::external_body]
fn div_floor(x: i64, y: i64) -> (q: i64)
    requires
        y > 0,
    ensures
        q == x as int / y as int,
{
    num_integer::div_floor(x, y)
}

/// `num_integer::mod_floor` on 64-bit numbers: the remainder that goes with
/// the quotient rounded towards negative infinity. It is stated for a
/// positive divisor, where it is never negative.
#[verifier::external_body]
fn mod_floor(x: i64, y: i64) -> (r: i64)
    requires
        y > 0,
    ensures
        r == x as int % y as int,
{
    num_integer::mod_floor(x, y)
}

/// The number of the day on which the count of a timestamp begins,
/// 1 January 1970, where 1 January of year 1 is day 1.
pub const EPOCH_DAY: i64 = 719_163;

/// The day of the week of `date` as the number of days since Sunday.
pub open spec fn days_from_sunday(date: Date) -> int {
    (date.weekday + 1) % 7
}

/// The week of the year of `date`, which is `day_of_week` days into its
/// week. The week began on day `ordinal - day_of_week` of the year; seven
/// more than that, in whole weeks, is the number of the week. So a week
/// that began on the last day of the year before, or on one of the first
/// six days of the year, is week 1.
pub open spec fn week_of_year(date: Date, day_of_week: int) -> int {
    (date.ordinal - day_of_week + 7) / 7
}

/// The hour of `time` on the 12-hour clock.
pub open spec fn hour12(time: Time) -> int {
    if time.hour as int % 12 == 0 {
        12
    } else {
        time.hour as int % 12
    }
}

/// The second of `time` as it is shown: 60 during a leap second, which the
/// time holds as a whole second among its nanoseconds.
pub open spec fn shown_second(time: Time) -> int {
    time.second + time.nanosecond as int / 1_000_000_000
}

/// The nanoseconds of `time` since the second that is shown.
pub open spec fn shown_nanosecond(time: Time) -> int {
    time.nanosecond as int % 1_000_000_000
}

/// The seconds from the beginning of 1970 to `time` on `date`, both taken
/// as UTC. A leap second counts as the second before it.
pub open spec fn utc_seconds(date: Date, time: Time) -> int {
    (date.days_from_ce - EPOCH_DAY) * 86_400 + time.hour * 3600 + time.minute * 60 + time.second
}

/// The seconds east of UTC that an offset stands for; none where there is
/// no offset.
pub open spec fn seconds_east(off: Option<&Offset>) -> int {
    match off {
        Some(o) => o.seconds as int,
        None => 0,
    }
}

/// Whether a numeric field is one that is rendered: the fields of the date
/// and of the time, the timestamp, and the reserved field, which never has
/// a value.
pub open spec fn numeric_supported(spec: Numeric) -> bool {
    numeric_of_date(spec) || numeric_of_time(spec) || spec == Numeric::Timestamp
        || spec is Internal
}

/// The width to which a numeric field is padded.
pub open spec fn numeric_width(spec: Numeric) -> nat {
    match spec {
        Numeric::Year | Numeric::IsoYear => 4,
        Numeric::Ordinal => 3,
        Numeric::Nanosecond => 9,
        Numeric::YearDiv100
        | Numeric::YearMod100
        | Numeric::IsoYearDiv100
        | Numeric::IsoYearMod100
        | Numeric::Month
        | Numeric::Day
        | Numeric::WeekFromSun
        | Numeric::WeekFromMon
        | Numeric::IsoWeek
        | Numeric::Hour
        | Numeric::Hour12
        | Numeric::Minute
        | Numeric::Second => 2,
        _ => 1,
    }
}

/// The value of a numeric field of a date.
pub open spec fn date_number(date: Date, spec: Numeric) -> int {
    match spec {
        Numeric::Year => date.year as int,
        Numeric::YearDiv100 => date.year as int / 100,
        Numeric::YearMod100 => date.year as int % 100,
        Numeric::IsoYear => date.iso_year as int,
        Numeric::IsoYearDiv100 => date.iso_year as int / 100,
        Numeric::IsoYearMod100 => date.iso_year as int % 100,
        Numeric::Month => date.month as int,
        Numeric::Day => date.day as int,
        Numeric::WeekFromSun => week_of_year(date, days_from_sunday(date)),
        Numeric::WeekFromMon => week_of_year(date, date.weekday as int),
        Numeric::IsoWeek => date.iso_week as int,
        Numeric::NumDaysFromSun => days_from_sunday(date),
        Numeric::WeekdayFromMon => date.weekday + 1,
        _ => date.ordinal as int,
    }
}

/// The value of a numeric field of a time of day.
pub open spec fn time_number(time: Time, spec: Numeric) -> int {
    match spec {
        Numeric::Hour => time.hour as int,
        Numeric::Hour12 => hour12(time),
        Numeric::Minute => time.minute as int,
        Numeric::Second => shown_second(time),
        _ => shown_nanosecond(time),
    }
}

/// Whether a numeric field is read from the date alone.
pub open spec fn numeric_of_date(spec: Numeric) -> bool {
    match spec {
        Numeric::Year
        | Numeric::YearDiv100
        | Numeric::YearMod100
        | Numeric::IsoYear
        | Numeric::IsoYearDiv100
        | Numeric::IsoYearMod100
        | Numeric::Month
        | Numeric::Day
        | Numeric::WeekFromSun
        | Numeric::WeekFromMon
        | Numeric::IsoWeek
        | Numeric::NumDaysFromSun
        | Numeric::WeekdayFromMon
        | Numeric::Ordinal => true,
        _ => false,
    }
}

/// Whether a numeric field is read from the time of day alone.
pub open spec fn numeric_of_time(spec: Numeric) -> bool {
    match spec {
        Numeric::Hour
        | Numeric::Hour12
        | Numeric::Minute
        | Numeric::Second
        | Numeric::Nanosecond => true,
        _ => false,
    }
}

/// The value of a numeric field, or `None` where what it is read from was
/// not given.
///
/// A field of the date needs the date, a field of the time needs the time,
/// and the timestamp needs both; it counts from UTC, so the offset, where
/// there is one, is taken off. The reserved field has no value.
pub open spec fn numeric_value(
    date: Option<&Date>,
    time: Option<&Time>,
    off: Option<&Offset>,
    spec: Numeric,
) -> Option<int> {
    if numeric_of_date(spec) {
        match date {
            Some(d) => Some(date_number(*d, spec)),
            None => None,
        }
    } else if numeric_of_time(spec) {
        match time {
            Some(t) => Some(time_number(*t, spec)),
            None => None,
        }
    } else if spec == Numeric::Timestamp {
        match (date, time) {
            (Some(d), Some(t)) => Some(utc_seconds(*d, *t) - seconds_east(off)),
            _ => None,
        }
    } else {
        None
    }
}

/// The value of a field that was computed, if one was.
pub open spec fn number_of(value: Option<i64>) -> Option<int> {
    match value {
        Some(v) => Some(v as int),
        None => None,
    }
}

/// The value of a numeric field of a date.
fn date_value(d: &Date, spec: &Numeric) -> (v: i64)
    requires
        d.wf(),
        numeric_of_date(*spec),
    ensures
        v == date_number(*d, *spec),
{
    let from_monday: i64 = d.weekday as i64;
    let from_sunday: i64 = (from_monday + 1) % 7;
    let ordinal: i64 = d.ordinal as i64;
    match spec {
        Numeric::Year => d.year as i64,
        Numeric::YearDiv100 => div_floor(d.year as i64, 100),
        Numeric::YearMod100 => mod_floor(d.year as i64, 100),
        Numeric::IsoYear => d.iso_year as i64,
        Numeric::IsoYearDiv100 => div_floor(d.iso_year as i64, 100),
        Numeric::IsoYearMod100 => mod_floor(d.iso_year as i64, 100),
        Numeric::Month => d.month as i64,
        Numeric::Day => d.day as i64,
        Numeric::WeekFromSun => (ordinal - from_sunday + 7) / 7,
        Numeric::WeekFromMon => (ordinal - from_monday + 7) / 7,
        Numeric::IsoWeek => d.iso_week as i64,
        Numeric::NumDaysFromSun => from_sunday,
        Numeric::WeekdayFromMon => from_monday + 1,
        _ => ordinal,
    }
}

/// The value of a numeric field of a time of day.
fn time_value(t: &Time, spec: &Numeric) -> (v: i64)
    requires
        numeric_of_time(*spec),
    ensures
        v == time_number(*t, *spec),
{
    match spec {
        Numeric::Hour => t.hour as i64,
        Numeric::Hour12 => {
            let hour: u32 = t.hour % 12;
            if hour == 0 {
                12
            } else {
                hour as i64
            }
        },
        Numeric::Minute => t.minute as i64,
        Numeric::Second => t.second as i64 + (t.nanosecond / 1_000_000_000) as i64,
        _ => (t.nanosecond % 1_000_000_000) as i64,
    }
}

/// Whether a numeric field is one that is rendered.
pub fn is_numeric_supported(spec: &Numeric) -> (supported: bool)
    ensures
        supported == numeric_supported(*spec),
{
    match spec {
        Numeric::Year
        | Numeric::YearDiv100
        | Numeric::YearMod100
        | Numeric::IsoYear
        | Numeric::IsoYearDiv100
        | Numeric::IsoYearMod100
        | Numeric::Month
        | Numeric::Day
        | Numeric::WeekFromSun
        | Numeric::WeekFromMon
        | Numeric::IsoWeek
        | Numeric::NumDaysFromSun
        | Numeric::WeekdayFromMon
        | Numeric::Ordinal
        | Numeric::Hour
        | Numeric::Hour12
        | Numeric::Minute
        | Numeric::Second
        | Numeric::Nanosecond
        | Numeric::Timestamp
        | Numeric::Internal(_) => true,
        _ => false,
    }
}

/// The width of a numeric field and its value, which is `None` where what
/// the field is read from was not given.
///
/// The field has to be one that is rendered.
pub fn parse_numeric(
    date: Option<&Date>,
    time: Option<&Time>,
    off: Option<&Offset>,
    spec: &Numeric,
) -> (out: (usize, Option<i64>))
    requires
        date_ok(date),
        numeric_supported(*spec),
    ensures
        out.0 == numeric_width(*spec),
        number_of(out.1) == numeric_value(date, time, off, *spec),
{
    match spec {
        Numeric::Year | Numeric::IsoYear => (
            4,
            match date {
                Some(d) => Some(date_value(d, spec)),
                None => None,
            },
        ),
        Numeric::Ordinal => (
            3,
            match date {
                Some(d) => Some(date_value(d, spec)),
                None => None,
            },
        ),
        Numeric::NumDaysFromSun | Numeric::WeekdayFromMon => (
            1,
            match date {
                Some(d) => Some(date_value(d, spec)),
                None => None,
            },
        ),
        Numeric::YearDiv100
        | Numeric::YearMod100
        | Numeric::IsoYearDiv100
        | Numeric::IsoYearMod100
        | Numeric::Month
        | Numeric::Day
        | Numeric::WeekFromSun
        | Numeric::WeekFromMon
        | Numeric::IsoWeek => (
            2,
            match date {
                Some(d) => Some(date_value(d, spec)),
                None => None,
            },
        ),
        Numeric::Hour | Numeric::Hour12 | Numeric::Minute | Numeric::Second => (
            2,
            match time {
                Some(t) => Some(time_value(t, spec)),
                None => None,
            },
        ),
        Numeric::Nanosecond => (
            9,
            match time {
                Some(t) => Some(time_value(t, spec)),
                None => None,
            },
        ),
        Numeric::Timestamp => (
            1,
            match (date, time) {
                (Some(d), Some(t)) => {
                    let days: i64 = d.days_from_ce as i64 - EPOCH_DAY;
                    let of_day: i64 = t.hour as i64 * 3600 + t.minute as i64 * 60
                        + t.second as i64;
                    let east: i64 = match off {
                        Some(o) => o.seconds as i64,
                        None => 0,
                    };
                    Some(days * 86_400 + of_day - east)
                },
                _ => None,
            },
        ),
        _ => (1, None),
    }
}

/// The text of a numeric field with value `v`.
///
/// A year outside 0 to 9999 is shown with its sign, and is padded to one
/// character more, whatever the padding.
pub open spec fn numeric_text(spec: Numeric, pad: Pad, v: int) -> Seq<char> {
    if (spec == Numeric::Year || spec == Numeric::IsoYear) && !(0 <= v < 10_000) {
        render_number(v, pad, numeric_width(spec) + 1, true)
    } else {
        render_number(v, pad, numeric_width(spec), false)
    }
}

/// The sign of long years: a year above 9999 is shown with a `+` and one
/// before year 0 with a `-`, whatever the padding, and in a width of five
/// where it is padded.
pub proof fn law_long_year_signed(spec: Numeric, pad: Pad, v: int)
    requires
        spec == Numeric::Year || spec == Numeric::IsoYear,
        !(0 <= v < 10_000),
    ensures
        numeric_text(spec, pad, v) == render_number(v, pad, 5, true),
        v >= 10_000 ==> numeric_text(spec, pad, v).contains('+'),
        v < 0 ==> numeric_text(spec, pad, v).contains('-'),
        pad != Pad::None ==> numeric_text(spec, pad, v).len() >= 5,
{
    let text = numeric_text(spec, pad, v);
    let sign = sign_of(v, true);
    let fill = fill_len(v, 5, true);
    assert(sign.len() == 1);
    let at = if pad == Pad::Space {
        fill as int
    } else {
        0
    };
    assert(text[at] == sign[0]);
}

/// Appends the text of a numeric field with value `v` to `w`.
pub fn push_numeric(w: &mut String, spec: &Numeric, pad: Pad, width: usize, v: i64)
    requires
        width == numeric_width(*spec),
    ensures
        final(w)@ == old(w)@ + numeric_text(*spec, pad, v as int),
{
    let is_year = match spec {
        Numeric::Year | Numeric::IsoYear => true,
        _ => false,
    };
    if is_year && !(0 <= v && v < 10_000) {
        push_number(w, v, pad, width + 1, true);
    } else {
        push_number(w, v, pad, width, false);
    }
}

/// The name at index `key` of `category` that a lookup under `tag` gives.
pub open spec fn name_text(locales: &Locales, category: Category, tag: Seq<char>, key: int) -> Seq<
    char,
> {
    resolve(locales.names(category), tag, key).unwrap()
}

/// A dot and the first `digits` digits of a fraction of `nano` nanoseconds;
/// `digits` is 3, 6 or 9.
pub open spec fn fraction_text(nano: int, digits: nat) -> Seq<char> {
    if digits == 3 {
        seq!['.'] + render_number(nano / 1_000_000, Pad::Zero, 3, false)
    } else if digits == 6 {
        seq!['.'] + render_number(nano / 1_000, Pad::Zero, 6, false)
    } else {
        seq!['.'] + render_number(nano, Pad::Zero, 9, false)
    }
}

/// A fraction of `nano` nanoseconds in as few digits as show all of it:
/// nothing for no fraction, else 3, 6 or 9 digits after a dot.
pub open spec fn trimmed_fraction_text(nano: int) -> Seq<char> {
    if nano == 0 {
        Seq::empty()
    } else if nano % 1_000_000 == 0 {
        fraction_text(nano, 3)
    } else if nano % 1_000 == 0 {
        fraction_text(nano, 6)
    } else {
        fraction_text(nano, 9)
    }
}

/// `HH:MM:SS` for a time, a leap second shown as second 60.
pub open spec fn clock_text(time: Time) -> Seq<char> {
    render_number(time.hour as int, Pad::Zero, 2, false) + seq![':'] + render_number(
        time.minute as int,
        Pad::Zero,
        2,
        false,
    ) + seq![':'] + render_number(shown_second(time), Pad::Zero, 2, false)
}

/// Date and time as in RFC 2822: `Sun, 08 Jul 2001 00:34:60 +0930`, with
/// the names of the locale; the day of the month has two digits, the year
/// at least four.
pub open spec fn rfc2822_text(
    locales: &Locales,
    date: Date,
    time: Time,
    seconds: int,
    tag: Seq<char>,
) -> Seq<char> {
    name_text(locales, Category::ShortWeekdays, tag, date.weekday as int) + seq![',', ' ']
        + render_number(date.day as int, Pad::Zero, 2, false) + seq![' '] + name_text(
        locales,
        Category::ShortMonths,
        tag,
        date.month - 1,
    ) + seq![' '] + render_number(date.year as int, Pad::Zero, 4, false) + seq![' ']
        + clock_text(time) + seq![' '] + offset_text(seconds, false, false)
}

/// Date and time as in RFC 3339: `2001-07-08T00:34:60.026490708+09:30`, the
/// fraction in as few digits as show all of it.
pub open spec fn rfc3339_text(date: Date, time: Time, seconds: int) -> Seq<char> {
    numeric_text(Numeric::Year, Pad::Zero, date.year as int) + seq!['-'] + render_number(
        date.month as int,
        Pad::Zero,
        2,
        false,
    ) + seq!['-'] + render_number(date.day as int, Pad::Zero, 2, false) + seq!['T'] + clock_text(
        time,
    ) + trimmed_fraction_text(shown_nanosecond(time)) + offset_text(seconds, false, true)
}

/// The index of the AM/PM marker for `time`: 0 before noon, 1 from noon on,
/// and 2 more for the upper-case form.
pub open spec fn ampm_index(time: Time, upper: bool) -> int {
    (if time.hour >= 12 {
        1int
    } else {
        0int
    }) + (if upper {
        2int
    } else {
        0int
    })
}

/// The text of a textual field of a date.
pub open spec fn date_text(locales: &Locales, date: Date, spec: Fixed, tag: Seq<char>) -> Seq<
    char,
> {
    match spec {
        Fixed::ShortMonthName => name_text(locales, Category::ShortMonths, tag, date.month - 1),
        Fixed::LongMonthName => name_text(locales, Category::LongMonths, tag, date.month - 1),
        Fixed::ShortWeekdayName => name_text(
            locales,
            Category::ShortWeekdays,
            tag,
            date.weekday as int,
        ),
        _ => name_text(locales, Category::LongWeekdays, tag, date.weekday as int),
    }
}

/// The text of a textual field of a time of day.
pub open spec fn time_text(locales: &Locales, time: Time, spec: Fixed, tag: Seq<char>) -> Seq<
    char,
> {
    match spec {
        Fixed::LowerAmPm => name_text(locales, Category::AmPm, tag, ampm_index(time, false)),
        Fixed::UpperAmPm => name_text(locales, Category::AmPm, tag, ampm_index(time, true)),
        Fixed::Nanosecond => trimmed_fraction_text(shown_nanosecond(time)),
        Fixed::Nanosecond3 => fraction_text(shown_nanosecond(time), 3),
        Fixed::Nanosecond6 => fraction_text(shown_nanosecond(time), 6),
        _ => fraction_text(shown_nanosecond(time), 9),
    }
}

/// The text of a textual field of an offset.
pub open spec fn offset_field_text(off: &Offset, spec: Fixed) -> Seq<char> {
    match spec {
        Fixed::TimezoneName => off.name@,
        Fixed::TimezoneOffsetColonZ => offset_text(off.seconds as int, true, true),
        Fixed::TimezoneOffset => offset_text(off.seconds as int, false, false),
        Fixed::TimezoneOffsetZ => offset_text(off.seconds as int, true, false),
        _ => offset_text(off.seconds as int, false, true),
    }
}

/// Whether a textual field is read from the date alone.
pub open spec fn fixed_of_date(spec: Fixed) -> bool {
    match spec {
        Fixed::ShortMonthName
        | Fixed::LongMonthName
        | Fixed::ShortWeekdayName
        | Fixed::LongWeekdayName => true,
        _ => false,
    }
}

/// Whether a textual field is read from the time of day alone.
pub open spec fn fixed_of_time(spec: Fixed) -> bool {
    match spec {
        Fixed::LowerAmPm
        | Fixed::UpperAmPm
        | Fixed::Nanosecond
        | Fixed::Nanosecond3
        | Fixed::Nanosecond6
        | Fixed::Nanosecond9 => true,
        _ => false,
    }
}

/// Whether a textual field is read from the offset alone.
pub open spec fn fixed_of_offset(spec: Fixed) -> bool {
    match spec {
        Fixed::TimezoneName
        | Fixed::TimezoneOffsetColon
        | Fixed::TimezoneOffsetDoubleColon
        | Fixed::TimezoneOffsetTripleColon
        | Fixed::TimezoneOffsetColonZ
        | Fixed::TimezoneOffset
        | Fixed::TimezoneOffsetZ => true,
        _ => false,
    }
}

/// What a textual field renders to under the locale tag `tag`, which is
/// taken as it stands.
///
/// A field of the date needs the date, one of the time the time, one of the
/// offset the offset, and the two composite fields need all three: without
/// them the field fails for a missing argument. The reserved field and any
/// other are not rendered.
pub open spec fn fixed_text(
    locales: &Locales,
    date: Option<&Date>,
    time: Option<&Time>,
    off: Option<&Offset>,
    spec: Fixed,
    tag: Seq<char>,
) -> Result<Seq<char>, FormatError> {
    if fixed_of_date(spec) {
        match date {
            Some(d) => Ok(date_text(locales, *d, spec, tag)),
            None => Err(FormatError::MissingArgument),
        }
    } else if fixed_of_time(spec) {
        match time {
            Some(t) => Ok(time_text(locales, *t, spec, tag)),
            None => Err(FormatError::MissingArgument),
        }
    } else if fixed_of_offset(spec) {
        match off {
            Some(o) => Ok(offset_field_text(o, spec)),
            None => Err(FormatError::MissingArgument),
        }
    } else if spec == Fixed::RFC2822 || spec == Fixed::RFC3339 {
        match (date, time, off) {
            (Some(d), Some(t), Some(o)) => if spec == Fixed::RFC2822 {
                Ok(rfc2822_text(locales, *d, *t, o.seconds as int, tag))
            } else {
                Ok(rfc3339_text(*d, *t, o.seconds as int))
            },
            _ => Err(FormatError::MissingArgument),
        }
    } else {
        Err(FormatError::UnsupportedDirective)
    }
}

/// Appends to `w` the name at index `key` of `category` under `tag`.
fn push_name(w: &mut String, locales: &Locales, category: Category, key: usize, tag: &str)
    requires
        key < default_len(category),
    ensures
        final(w)@ == old(w)@ + name_text(locales, category, tag@, key as int),
{
    let name = name_in(locales, category, key, tag);
    w.append(name);
}

/// Appends to `w` a dot and the first `digits` digits of a fraction of
/// `nano` nanoseconds.
fn push_fraction(w: &mut String, nano: u32, digits: usize)
    requires
        digits == 3 || digits == 6 || digits == 9,
    ensures
        final(w)@ == old(w)@ + fraction_text(nano as int, digits as nat),
{
    let ghost start = w@;
    w.push('.');
    if digits == 3 {
        push_number(w, (nano / 1_000_000) as i64, Pad::Zero, 3, false);
    } else if digits == 6 {
        push_number(w, (nano / 1_000) as i64, Pad::Zero, 6, false);
    } else {
        push_number(w, nano as i64, Pad::Zero, 9, false);
    }
    assert(w@ =~= start + fraction_text(nano as int, digits as nat));
}

/// Appends to `w` a fraction of `nano` nanoseconds in as few digits as show
/// all of it.
fn push_trimmed_fraction(w: &mut String, nano: u32)
    ensures
        final(w)@ == old(w)@ + trimmed_fraction_text(nano as int),
{
    if nano == 0 {
        assert(w@ =~= old(w)@ + trimmed_fraction_text(nano as int));
    } else if nano % 1_000_000 == 0 {
        push_fraction(w, nano, 3);
    } else if nano % 1_000 == 0 {
        push_fraction(w, nano, 6);
    } else {
        push_fraction(w, nano, 9);
    }
}

/// The second of `t` as it is shown.
fn second_shown(t: &Time) -> (second: i64)
    ensures
        second == shown_second(*t),
{
    t.second as i64 + (t.nanosecond / 1_000_000_000) as i64
}

/// Appends `HH:MM:SS` for `t` to `w`.
fn push_clock(w: &mut String, t: &Time)
    ensures
        final(w)@ == old(w)@ + clock_text(*t),
{
    let ghost start = w@;
    push_number(w, t.hour as i64, Pad::Zero, 2, false);
    w.push(':');
    push_number(w, t.minute as i64, Pad::Zero, 2, false);
    w.push(':');
    push_number(w, second_shown(t), Pad::Zero, 2, false);
    assert(w@ =~= start + clock_text(*t));
}

/// Date and time as in RFC 2822.
fn rfc2822_string(locales: &Locales, d: &Date, t: &Time, seconds: i32, tag: &str) -> (out:
    String)
    requires
        d.wf(),
    ensures
        out@ == rfc2822_text(locales, *d, *t, seconds as int, tag@),
{
    let mut out = String::new();
    push_name(&mut out, locales, Category::ShortWeekdays, d.weekday as usize, tag);
    assert(out@ =~= name_text(locales, Category::ShortWeekdays, tag@, d.weekday as int));
    out.push(',');
    out.push(' ');
    assert(out@ =~= name_text(locales, Category::ShortWeekdays, tag@, d.weekday as int)
        + seq![',', ' ']);
    push_number(&mut out, d.day as i64, Pad::Zero, 2, false);
    out.push(' ');
    push_name(&mut out, locales, Category::ShortMonths, (d.month - 1) as usize, tag);
    out.push(' ');
    push_number(&mut out, d.year as i64, Pad::Zero, 4, false);
    out.push(' ');
    push_clock(&mut out, t);
    out.push(' ');
    write_local_minus_utc(&mut out, seconds, false, false);
    out
}

/// Date and time as in RFC 3339.
fn rfc3339_string(d: &Date, t: &Time, seconds: i32) -> (out: String)
    ensures
        out@ == rfc3339_text(*d, *t, seconds as int),
{
    let mut out = String::new();
    push_numeric(&mut out, &Numeric::Year, Pad::Zero, 4, d.year as i64);
    assert(out@ =~= numeric_text(Numeric::Year, Pad::Zero, d.year as int));
    out.push('-');
    push_number(&mut out, d.month as i64, Pad::Zero, 2, false);
    out.push('-');
    push_number(&mut out, d.day as i64, Pad::Zero, 2, false);
    out.push('T');
    push_clock(&mut out, t);
    push_trimmed_fraction(&mut out, t.nanosecond % 1_000_000_000);
    write_local_minus_utc(&mut out, seconds, false, true);
    out
}

/// The text of a textual field of a date.
fn date_string(locales: &Locales, d: &Date, spec: &Fixed, tag: &str) -> (out: String)
    requires
        d.wf(),
        fixed_of_date(*spec),
    ensures
        out@ == date_text(locales, *d, *spec, tag@),
{
    let mut out = String::new();
    match spec {
        Fixed::ShortMonthName => push_name(
            &mut out,
            locales,
            Category::ShortMonths,
            (d.month - 1) as usize,
            tag,
        ),
        Fixed::LongMonthName => push_name(
            &mut out,
            locales,
            Category::LongMonths,
            (d.month - 1) as usize,
            tag,
        ),
        Fixed::ShortWeekdayName => push_name(
            &mut out,
            locales,
            Category::ShortWeekdays,
            d.weekday as usize,
            tag,
        ),
        _ => push_name(&mut out, locales, Category::LongWeekdays, d.weekday as usize, tag),
    }
    assert(out@ =~= date_text(locales, *d, *spec, tag@));
    out
}

/// The text of a textual field of a time of day.
fn time_string(locales: &Locales, t: &Time, spec: &Fixed, tag: &str) -> (out: String)
    requires
        fixed_of_time(*spec),
    ensures
        out@ == time_text(locales, *t, *spec, tag@),
{
    let mut out = String::new();
    let nano: u32 = t.nanosecond % 1_000_000_000;
    let marker: usize = if t.hour >= 12 {
        1
    } else {
        0
    };
    match spec {
        Fixed::LowerAmPm => push_name(&mut out, locales, Category::AmPm, marker, tag),
        Fixed::UpperAmPm => push_name(&mut out, locales, Category::AmPm, marker + 2, tag),
        Fixed::Nanosecond => push_trimmed_fraction(&mut out, nano),
        Fixed::Nanosecond3 => push_fraction(&mut out, nano, 3),
        Fixed::Nanosecond6 => push_fraction(&mut out, nano, 6),
        _ => push_fraction(&mut out, nano, 9),
    }
    assert(out@ =~= time_text(locales, *t, *spec, tag@));
    out
}

/// The text of a textual field of an offset.
fn offset_string(o: &Offset, spec: &Fixed) -> (out: String)
    requires
        fixed_of_offset(*spec),
    ensures
        out@ == offset_field_text(o, *spec),
{
    let mut out = String::new();
    match spec {
        Fixed::TimezoneName => out.append(o.name.as_str()),
        Fixed::TimezoneOffsetColonZ => write_local_minus_utc(&mut out, o.seconds, true, true),
        Fixed::TimezoneOffset => write_local_minus_utc(&mut out, o.seconds, false, false),
        Fixed::TimezoneOffsetZ => write_local_minus_utc(&mut out, o.seconds, true, false),
        _ => write_local_minus_utc(&mut out, o.seconds, false, true),
    }
    assert(out@ =~= offset_field_text(o, *spec));
    out
}

/// The text of a rendering that succeeded, and the error of one that did
/// not.
pub open spec fn text_result(out: Result<String, FormatError>) -> Result<Seq<char>, FormatError> {
    match out {
        Ok(text) => Ok(text@),
        Err(e) => Err(e),
    }
}

/// Renders a textual field under the locale tag `locale`, which is taken as
/// it stands.
pub fn fixed_string(
    date: Option<&Date>,
    time: Option<&Time>,
    off: Option<&Offset>,
    spec: &Fixed,
    locale: &str,
    locales: &Locales,
) -> (out: Result<String, FormatError>)
    requires
        date_ok(date),
    ensures
        text_result(out) == fixed_text(locales, date, time, off, *spec, locale@),
{
    match spec {
        Fixed::ShortMonthName
        | Fixed::LongMonthName
        | Fixed::ShortWeekdayName
        | Fixed::LongWeekdayName => match date {
            Some(d) => Ok(date_string(locales, d, spec, locale)),
            None => Err(FormatError::MissingArgument),
        },
        Fixed::LowerAmPm
        | Fixed::UpperAmPm
        | Fixed::Nanosecond
        | Fixed::Nanosecond3
        | Fixed::Nanosecond6
        | Fixed::Nanosecond9 => match time {
            Some(t) => Ok(time_string(locales, t, spec, locale)),
            None => Err(FormatError::MissingArgument),
        },
        Fixed::TimezoneName
        | Fixed::TimezoneOffsetColon
        | Fixed::TimezoneOffsetDoubleColon
        | Fixed::TimezoneOffsetTripleColon
        | Fixed::TimezoneOffsetColonZ
        | Fixed::TimezoneOffset
        | Fixed::TimezoneOffsetZ => match off {
            Some(o) => Ok(offset_string(o, spec)),
            None => Err(FormatError::MissingArgument),
        },
        Fixed::RFC2822 => match (date, time, off) {
            (Some(d), Some(t), Some(o)) => Ok(rfc2822_string(locales, d, t, o.seconds, locale)),
            _ => Err(FormatError::MissingArgument),
        },
        Fixed::RFC3339 => match (date, time, off) {
            (Some(d), Some(t), Some(o)) => Ok(rfc3339_string(d, t, o.seconds)),
            _ => Err(FormatError::MissingArgument),
        },
        _ => Err(FormatError::UnsupportedDirective),
    }
}

/// Renders a textual field under the locale tag `locale`, which is taken as
/// it stands, and appends the text to `w`. Where the field cannot be
/// rendered, `w` stays as it is.
pub fn parse_fixed(
    w: &mut String,
    date: Option<&Date>,
    time: Option<&Time>,
    off: Option<&Offset>,
    spec: &Fixed,
    locale: &str,
    locales: &Locales,
) -> (done: Result<(), FormatError>)
    requires
        date_ok(date),
    ensures
        match fixed_text(locales, date, time, off, *spec, locale@) {
            Ok(text) => done is Ok && final(w)@ == old(w)@ + text,
            Err(e) => done == Err::<(), FormatError>(e) && final(w)@ == old(w)@,
        },
{
    match fixed_string(date, time, off, spec, locale, locales) {
        Ok(text) => {
            w.append(text.as_str());
            Ok(())
        },
        Err(e) => Err(e),
    }
}

/// What one item of a format renders to under the locale tag `tag`, which
/// is taken as it stands.
///
/// Text is copied. A numeric field that is not rendered fails as
/// unsupported; another one fails for a missing argument where it has no
/// value. The mark of an error fails as malformed.
pub open spec fn item_text(
    locales: &Locales,
    date: Option<&Date>,
    time: Option<&Time>,
    off: Option<&Offset>,
    item: Item,
    tag: Seq<char>,
) -> Result<Seq<char>, FormatError> {
    match item {
        Item::Literal(text) => Ok(text@),
        Item::OwnedLiteral(text) => Ok(text@),
        Item::Space(text) => Ok(text@),
        Item::OwnedSpace(text) => Ok(text@),
        Item::Numeric(spec, pad) => if !numeric_supported(spec) {
            Err(FormatError::UnsupportedDirective)
        } else {
            match numeric_value(date, time, off, spec) {
                Some(v) => Ok(numeric_text(spec, pad, v)),
                None => Err(FormatError::MissingArgument),
            }
        },
        Item::Fixed(spec) => fixed_text(locales, date, time, off, spec, tag),
        Item::Error => Err(FormatError::MalformedDirective),
    }
}

/// What rendering a format leaves behind: the text that was written, and
/// the failure that stopped it, if one did.
pub struct Rendering {
    /// The text of the items that were rendered.
    pub text: Seq<char>,
    /// The error of the first item that could not be rendered.
    pub failure: Option<FormatError>,
}

/// What the items of a format render to, in their order, under the locale
/// tag `tag`: the texts of the items up to the first that fails, one after
/// the other, and the error of that item.
pub open spec fn rendering(
    locales: &Locales,
    date: Option<&Date>,
    time: Option<&Time>,
    off: Option<&Offset>,
    items: Seq<Item>,
    tag: Seq<char>,
) -> Rendering
    decreases items.len(),
{
    if items.len() == 0 {
        Rendering { text: Seq::empty(), failure: None }
    } else {
        let before = rendering(locales, date, time, off, items.drop_last(), tag);
        if before.failure is Some {
            before
        } else {
            match item_text(locales, date, time, off, items.last(), tag) {
                Ok(text) => Rendering { text: before.text + text, failure: None },
                Err(e) => Rendering { text: before.text, failure: Some(e) },
            }
        }
    }
}

/// What a call that renders a format returns for a rendering.
pub open spec fn outcome(rendering: Rendering) -> Result<(), FormatError> {
    match rendering.failure {
        None => Ok(()),
        Some(e) => Err(e),
    }
}

/// Once an item has failed, the items after it change nothing.
pub proof fn lemma_failure_stops(
    locales: &Locales,
    date: Option<&Date>,
    time: Option<&Time>,
    off: Option<&Offset>,
    items: Seq<Item>,
    tag: Seq<char>,
    upto: int,
)
    requires
        0 <= upto <= items.len(),
        rendering(locales, date, time, off, items.take(upto), tag).failure is Some,
    ensures
        rendering(locales, date, time, off, items, tag) == rendering(
            locales,
            date,
            time,
            off,
            items.take(upto),
            tag,
        ),
    decreases items.len() - upto,
{
    if upto == items.len() {
        assert(items.take(upto) =~= items);
    } else {
        assert(items.drop_last().take(upto) =~= items.take(upto));
        lemma_failure_stops(locales, date, time, off, items.drop_last(), tag, upto);
    }
}

/// What [`format_l10n`] ensures of a call: the buffer, which held `before`,
/// holds `after`, and the call returns `done`.
pub open spec fn rendered(
    before: Seq<char>,
    after: Seq<char>,
    done: Result<(), FormatError>,
    locales: &Locales,
    date: Option<&Date>,
    time: Option<&Time>,
    off: Option<&Offset>,
    items: Seq<Item>,
    locale: Seq<char>,
) -> bool {
    &&& after == before + rendering(locales, date, time, off, items, normalized(locale)).text
    &&& done == outcome(rendering(locales, date, time, off, items, normalized(locale)))
}

/// Whether an item is read from the date.
pub open spec fn needs_date(item: Item) -> bool {
    match item {
        Item::Numeric(spec, _) => numeric_of_date(spec) || spec == Numeric::Timestamp,
        Item::Fixed(spec) => fixed_of_date(spec) || spec == Fixed::RFC2822 || spec
            == Fixed::RFC3339,
        _ => false,
    }
}

/// Whether an item is read from the time of day.
pub open spec fn needs_time(item: Item) -> bool {
    match item {
        Item::Numeric(spec, _) => numeric_of_time(spec) || spec == Numeric::Timestamp,
        Item::Fixed(spec) => fixed_of_time(spec) || spec == Fixed::RFC2822 || spec
            == Fixed::RFC3339,
        _ => false,
    }
}

/// Whether an item is read from the offset.
pub open spec fn needs_offset(item: Item) -> bool {
    match item {
        Item::Fixed(spec) => fixed_of_offset(spec) || spec == Fixed::RFC2822 || spec
            == Fixed::RFC3339,
        _ => false,
    }
}

/// Missing arguments: an item that is read from the date, the time or the
/// offset fails for a missing argument where that one is not given. No
/// value is put in its place.
pub proof fn law_missing_argument(
    locales: &Locales,
    date: Option<&Date>,
    time: Option<&Time>,
    off: Option<&Offset>,
    item: Item,
    tag: Seq<char>,
)
    requires
        (needs_date(item) && date is None) || (needs_time(item) && time is None) || (
        needs_offset(item) && off is None),
    ensures
        item_text(locales, date, time, off, item, tag) == Err::<Seq<char>, FormatError>(
            FormatError::MissingArgument,
        ),
{
}

/// Missing time: a format with an item that is read from the time of day
/// is not rendered to the end where only a date is given; it fails at that
/// item for a missing argument, unless it has failed before.
pub proof fn law_missing_time_fails(
    locales: &Locales,
    date: Option<&Date>,
    items: Seq<Item>,
    tag: Seq<char>,
    at: int,
)
    requires
        0 <= at < items.len(),
        needs_time(items[at]),
    ensures
        rendering(locales, date, None, None, items, tag).failure is Some,
        rendering(locales, date, None, None, items.take(at), tag).failure is None ==> rendering(
            locales,
            date,
            None,
            None,
            items,
            tag,
        ) == (Rendering {
            text: rendering(locales, date, None, None, items.take(at), tag).text,
            failure: Some(FormatError::MissingArgument),
        }),
{
    let before = rendering(locales, date, None, None, items.take(at), tag);
    let upto = rendering(locales, date, None, None, items.take(at + 1), tag);
    assert(items.take(at + 1).drop_last() =~= items.take(at));
    assert(items.take(at + 1).last() == items[at]);
    law_missing_argument(locales, date, None, None, items[at], tag);
    assert(upto.failure is Some);
    lemma_failure_stops(locales, date, None, None, items, tag, at + 1);
}

/// Rendering is a function of its arguments: two calls with the same
/// arguments, on buffers that hold the same text, leave the same text
/// behind and return the same.
pub proof fn law_rendering_repeats(
    before: Seq<char>,
    first: (Seq<char>, Result<(), FormatError>),
    second: (Seq<char>, Result<(), FormatError>),
    locales: &Locales,
    date: Option<&Date>,
    time: Option<&Time>,
    off: Option<&Offset>,
    items: Seq<Item>,
    locale: Seq<char>,
)
    requires
        rendered(before, first.0, first.1, locales, date, time, off, items, locale),
        rendered(before, second.0, second.1, locales, date, time, off, items, locale),
    ensures
        first == second,
{
}

/// Renders the items of a format, in their order, for the locale `locale`
/// and appends the text to `w`.
///
/// The locale tag may be written in any case and with `-` or `_` between
/// its subtags. Rendering stops at the first item that cannot be rendered
/// and returns its error; what the items before it rendered to stays in
/// `w`.
pub fn format_l10n(
    w: &mut String,
    date: Option<&Date>,
    time: Option<&Time>,
    off: Option<&Offset>,
    items: &[Item],
    locale: &str,
    locales: &Locales,
) -> (done: Result<(), FormatError>)
    requires
        date_ok(date),
    ensures
        final(w)@ == old(w)@ + rendering(
            locales,
            date,
            time,
            off,
            items@,
            normalized(locale@),
        ).text,
        done == outcome(rendering(locales, date, time, off, items@, normalized(locale@))),
{
    let tag = normalize(locale);
    let mut at: usize = 0;
    while at < items.len()
        invariant
            at <= items.len(),
            date_ok(date),
            tag@ == normalized(locale@),
            rendering(locales, date, time, off, items@.take(at as int), tag@).failure is None,
            w@ == old(w)@ + rendering(locales, date, time, off, items@.take(at as int), tag@).text,
        decreases items.len() - at,
    {
        let ghost before = rendering(locales, date, time, off, items@.take(at as int), tag@);
        let ghost after = rendering(locales, date, time, off, items@.take(at + 1), tag@);
        proof {
            assert(items@.take(at + 1).drop_last() =~= items@.take(at as int));
            assert(items@.take(at + 1).last() == items@[at as int]);
        }
        let step = match &items[at] {
            Item::Literal(text) => {
                w.append(text);
                Ok(())
            },
            Item::OwnedLiteral(text) => {
                w.append(text);
                Ok(())
            },
            Item::Space(text) => {
                w.append(text);
                Ok(())
            },
            Item::OwnedSpace(text) => {
                w.append(text);
                Ok(())
            },
            Item::Numeric(spec, pad) => {
                if is_numeric_supported(spec) {
                    let (width, value) = parse_numeric(date, time, off, spec);
                    match value {
                        Some(v) => {
                            push_numeric(w, spec, *pad, width, v);
                            Ok(())
                        },
                        None => Err(FormatError::MissingArgument),
                    }
                } else {
                    Err(FormatError::UnsupportedDirective)
                }
            },
            Item::Fixed(spec) => parse_fixed(w, date, time, off, spec, tag.as_str(), locales),
            Item::Error => Err(FormatError::MalformedDirective),
        };
        assert(w@ =~= old(w)@ + after.text);
        assert(step == outcome(after)) by {
            assert(step is Ok ==> step->Ok_0 == ());
        }
        if let Err(e) = step {
            proof {
                lemma_failure_stops(locales, date, time, off, items@, tag@, at + 1);
            }
            return Err(e);
        }
        at = at + 1;
    }
    assert(items@.take(at as int) =~= items@);
    Ok(())
}

} // verus!

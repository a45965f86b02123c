//! Locale-aware rendering of dates and times.
//!
//! A format is a sequence of [`Item`]s: literal text, numeric fields and
//! textual fields. Month names, weekday names and AM/PM markers are taken
//! from a [`Locales`] table, looked up under the requested locale tag, then
//! under its primary subtag, then under the default locale `"C"`.
//!
//! Every function in this crate carries a contract that the Verus verifier
//! checks; the few places that rest on other crates are marked as such.
use chrono::format::Item;
use chrono::{FixedOffset, NaiveDate, NaiveTime};
use vstd::prelude::*;
use vstd::string::*;

pub mod digits;
pub mod fmt;
pub mod item;
pub mod locales;
pub mod util;
pub mod value;

pub use crate::fmt::{format_l10n, parse_fixed, parse_numeric, rendering, Rendering};
pub use crate::item::FormatError;
pub use crate::locales::{Category, Locales};
pub use crate::util::{
    ampm, find_key, find_normalized_key, long_month, long_weekday, lookup, normalized,
    short_month, short_weekday, write_local_minus_utc,
};
pub use crate::value::{borrowed, offset_name, Date, Offset, Time};

verus! {

/// A format together with what it is applied to, ready to be rendered.
///
/// Nothing is rendered when the value is made: [`DelayedFormatL10n::render`]
/// does that, as often as it is called.
#[derive(Clone, Debug)]
pub struct DelayedFormatL10n<'a> {
    /// The locale to render for.
    pub locale: String,
    /// The date, if there is one.
    pub date: Option<Date>,
    /// The time of day, if there is one.
    pub time: Option<Time>,
    /// The offset from UTC with its name, if there is one.
    pub off: Option<Offset>,
    /// The items of the format.
    pub items: Vec<Item<'a>>,
}

impl<'a> DelayedFormatL10n<'a> {
    /// A format applied to a local date and time, without an offset.
    pub fn new(
        date: Option<NaiveDate>,
        time: Option<NaiveTime>,
        items: Vec<Item<'a>>,
        locale: &str,
    ) -> (made: DelayedFormatL10n<'a>)
        ensures
            made.date is Some <==> date is Some,
            made.time is Some <==> time is Some,
            made.off is None,
            made.items == items,
            made.locale@ == locale@,
            made.wf(),
            made.time matches Some(t) ==> t.wf(),
    {
        DelayedFormatL10n {
            date: match &date {
                Some(d) => Some(Date::from_naive(d)),
                None => None,
            },
            time: match &time {
                Some(t) => Some(Time::from_naive(t)),
                None => None,
            },
            off: None,
            items,
            locale: String::from_str(locale),
        }
    }

    /// A format applied to a local date and time and their offset from UTC,
    /// which is shown under the name that it displays as, as in `+09:30`.
    pub fn new_with_offset(
        date: Option<NaiveDate>,
        time: Option<NaiveTime>,
        offset: &FixedOffset,
        items: Vec<Item<'a>>,
        locale: &str,
    ) -> (made: DelayedFormatL10n<'a>)
        ensures
            made.date is Some <==> date is Some,
            made.time is Some <==> time is Some,
            made.off matches Some(o) && -86_400 < o.seconds < 86_400 && o.name@ == offset_name(
                o.seconds as int,
            ),
            made.items == items,
            made.locale@ == locale@,
            made.wf(),
            made.time matches Some(t) ==> t.wf(),
    {
        let name_and_diff = Offset::from_fixed(offset);
        DelayedFormatL10n {
            date: match &date {
                Some(d) => Some(Date::from_naive(d)),
                None => None,
            },
            time: match &time {
                Some(t) => Some(Time::from_naive(t)),
                None => None,
            },
            off: Some(name_and_diff),
            items,
            locale: String::from_str(locale),
        }
    }

    /// Whether the date is valid, where there is one.
    pub open spec fn wf(&self) -> bool {
        self.date matches Some(d) ==> d.wf()
    }

    /// What the format renders to with the names of `locales`.
    pub open spec fn expected(&self, locales: &Locales) -> Rendering {
        rendering(
            locales,
            borrowed(&self.date),
            borrowed(&self.time),
            borrowed(&self.off),
            self.items@,
            normalized(self.locale@),
        )
    }

    /// Renders the format with the names of `locales`: the whole text, or
    /// the error of the first item that cannot be rendered.
    pub fn render(&self, locales: &Locales) -> (out: Result<String, FormatError>)
        requires
            self.wf(),
        ensures
            match self.expected(locales).failure {
                None => out matches Ok(text) && text@ == self.expected(locales).text,
                Some(e) => out == Err::<String, FormatError>(e),
            },
    {
        let mut text = String::new();
        let done = format_l10n(
            &mut text,
            self.date.as_ref(),
            self.time.as_ref(),
            self.off.as_ref(),
            self.items.as_slice(),
            self.locale.as_str(),
            locales,
        );
        match done {
            Ok(()) => Ok(text),
            Err(e) => Err(e),
        }
    }
}

} // verus!

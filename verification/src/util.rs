//! Lookup of names with fallback, and the rendering of a UTC offset.
use crate::digits::{magnitude, magnitude_of, push_number, render_number};
use chrono::format::Pad;
use crate::locales::{
    admissible, default_len, default_tag, map_wf, Category, Locales, NameMap,
};
use vstd::hash_map::StringHashMap;
use vstd::prelude::*;
use vstd::string::*;

verus! {

/// The name at index `key` of the list under `tag`, if the map has that tag
/// and the list has that index.
pub open spec fn name_at(names: NameMap, tag: Seq<char>, key: int) -> Option<Seq<char>> {
    if names.contains_key(tag) && 0 <= key < names[tag]@.len() {
        Some(names[tag]@[key]@)
    } else {
        None
    }
}

/// Whether `at` is where the primary subtag of `tag` ends: the place of the
/// first `-`, or the end of a tag that has none.
pub open spec fn ends_primary(tag: Seq<char>, at: int) -> bool {
    &&& 0 <= at <= tag.len()
    &&& at < tag.len() ==> tag[at] == '-'
    &&& forall|i: int| 0 <= i < at ==> tag[i] != '-'
}

/// The primary subtag of `tag`: the text before its first `-`.
pub open spec fn primary_subtag(tag: Seq<char>) -> Seq<char> {
    tag.subrange(0, choose|at: int| ends_primary(tag, at))
}

/// The name that a lookup of index `key` under `tag` resolves to: that of
/// the tag itself; else, for a tag with a `-`, that of its primary subtag;
/// else that of the default locale `"C"`.
pub open spec fn resolve(names: NameMap, tag: Seq<char>, key: int) -> Option<Seq<char>> {
    if name_at(names, tag, key) is Some {
        name_at(names, tag, key)
    } else if tag.contains('-') && name_at(names, primary_subtag(tag), key) is Some {
        name_at(names, primary_subtag(tag), key)
    } else {
        name_at(names, default_tag(), key)
    }
}

/// The text of a name that was found, if one was.
pub open spec fn text_of(found: Option<&'static str>) -> Option<Seq<char>> {
    match found {
        Some(name) => Some(name@),
        None => None,
    }
}

/// There is exactly one place where the primary subtag ends.
pub proof fn lemma_ends_primary_unique(tag: Seq<char>, at: int)
    requires
        ends_primary(tag, at),
    ensures
        (choose|at: int| ends_primary(tag, at)) == at,
        primary_subtag(tag) == tag.subrange(0, at),
        tag.contains('-') <==> at < tag.len(),
{
    let chosen = choose|at: int| ends_primary(tag, at);
    assert(ends_primary(tag, chosen));
    if chosen < at {
        assert(tag[chosen] != '-');
    }
    if at < chosen {
        assert(tag[at] != '-');
    }
    if at < tag.len() {
        assert(tag[at] == '-');
    }
}

/// The name at index `key` of the list under `tag`.
fn entry_at(key: usize, data: &StringHashMap<Vec<&'static str>>, tag: &str) -> (found: Option<
    &'static str,
>)
    ensures
        text_of(found) == name_at(data@, tag@, key as int),
{
    match data.get(tag) {
        Some(list) => {
            if key < list.len() {
                Some(list[key])
            } else {
                None
            }
        },
        None => None,
    }
}

/// Where the primary subtag of `tag` ends: the index of its first `-`, or
/// its length if it has none.
pub fn primary_end(tag: &str) -> (at: usize)
    ensures
        ends_primary(tag@, at as int),
{
    let len = tag.unicode_len();
    let mut at: usize = 0;
    while at < len
        invariant
            len == tag@.len(),
            at <= len,
            forall|i: int| 0 <= i < at ==> tag@[i] != '-',
        decreases len - at,
    {
        if tag.get_char(at) == '-' {
            return at;
        }
        at = at + 1;
    }
    at
}

/// Looks up the name at index `key` for `locale` in `data`.
///
/// The locale tag may be written in any case and with `-` or `_` between
/// its subtags: it is brought into lower case with `-` first. Then the
/// lookup goes to the whole tag, then, if it has a `-`, to its primary
/// subtag, then to the default locale `"C"`. Returns `None` only if the
/// default locale has no such name either.
pub fn find_key(key: usize, data: &StringHashMap<Vec<&'static str>>, locale: &str) -> (found:
    Option<&'static str>)
    ensures
        text_of(found) == resolve(data@, normalized(locale@), key as int),
        name_at(data@, default_tag(), key as int) is Some ==> found is Some,
{
    let tag = normalize(locale);
    find_normalized_key(key, data, tag.as_str())
}

/// Looks up the name at index `key` in `data` for a tag that is in lower
/// case with `-` between its subtags, as [`normalize`] gives it.
///
/// The tag is taken as it stands: first the whole tag, then, if it has a
/// `-`, its primary subtag, then the default locale `"C"`. Returns `None`
/// only if the default locale has no such name either.
pub fn find_normalized_key(
    key: usize,
    data: &StringHashMap<Vec<&'static str>>,
    tag: &str,
) -> (found: Option<&'static str>)
    ensures
        text_of(found) == resolve(data@, tag@, key as int),
        name_at(data@, default_tag(), key as int) is Some ==> found is Some,
{
    let exact = entry_at(key, data, tag);
    if exact.is_some() {
        return exact;
    }
    let at = primary_end(tag);
    proof {
        lemma_ends_primary_unique(tag@, at as int);
    }
    if at < tag.unicode_len() {
        let primary = tag.substring_char(0, at);
        let second = entry_at(key, data, primary);
        if second.is_some() {
            return second;
        }
    }
    proof {
        reveal_strlit("C");
        assert("C"@ =~= default_tag());
    }
    entry_at(key, data, "C")
}

/// What `str::to_lowercase` makes of a text: its lower-case form by the
/// Unicode rules, which depend on the text alone.
pub uninterp spec fn lowercase(text: Seq<char>) -> Seq<char>;

/// `str::to_lowercase` returns the lower-case form of the text.
pub assume_specification[ str::to_lowercase ](text: &str) -> (lower: String)
    ensures
        lower@ == lowercase(text@),
;

/// `text` with `-` in place of every `_`.
pub open spec fn dashed(text: Seq<char>) -> Seq<char> {
    text.map_values(
        |c: char|
            if c == '_' {
                '-'
            } else {
                c
            },
    )
}

/// The text with `-` in place of every `_`.
pub fn replace_underscores(text: &str) -> (out: String)
    ensures
        out@ == dashed(text@),
{
    let len = text.unicode_len();
    let mut out = String::new();
    let mut at: usize = 0;
    while at < len
        invariant
            len == text@.len(),
            at <= len,
            out@ == dashed(text@.take(at as int)),
        decreases len - at,
    {
        let c = text.get_char(at);
        if c == '_' {
            out.push('-');
        } else {
            out.push(c);
        }
        at = at + 1;
        assert(out@ =~= dashed(text@.take(at as int)));
    }
    assert(text@.take(len as int) =~= text@);
    out
}

/// The form of a locale tag under which names are looked up: in lower case,
/// with `-` between the subtags.
pub open spec fn normalized(tag: Seq<char>) -> Seq<char> {
    dashed(lowercase(tag))
}

/// Brings a locale tag into the form under which names are looked up.
pub fn normalize(locale: &str) -> (tag: String)
    ensures
        tag@ == normalized(locale@),
{
    let lower = locale.to_lowercase();
    replace_underscores(lower.as_str())
}

/// The name at index `key` of `category` for a tag that is in lower case
/// with `-` between its subtags, as [`normalize`] gives it; the tag is
/// taken as it stands.
///
/// The index has to be one of the category: the default locale holds a
/// name at each, so every lookup finds one.
pub fn name_in(locales: &Locales, category: Category, key: usize, tag: &str) -> (name:
    &'static str)
    requires
        key < default_len(category),
    ensures
        Some(name@) == resolve(locales.names(category), tag@, key as int),
{
    let data = locales.map(category);
    assert(map_wf(category, locales.names(category)));
    assert(data@.contains_key(default_tag()));
    let found = find_normalized_key(key, data, tag);
    found.unwrap()
}

/// The name at index `key` of `category` for `locale`, which may be written
/// in any case and with `-` or `_` between its subtags.
fn name_for(locales: &Locales, category: Category, key: usize, locale: &str) -> (name:
    &'static str)
    requires
        key < default_len(category),
    ensures
        Some(name@) == resolve(locales.names(category), normalized(locale@), key as int),
{
    let data = locales.map(category);
    assert(map_wf(category, locales.names(category)));
    assert(data@.contains_key(default_tag()));
    let found = find_key(key, data, locale);
    found.unwrap()
}

/// The abbreviated name of the month with index `key` (January is 0) for
/// `locale`, a tag in any case with `-` or `_` between its subtags.
pub fn short_month(key: usize, locale: &str, locales: &Locales) -> (name: &'static str)
    requires
        key < 12,
    ensures
        Some(name@) == resolve(
            locales.names(Category::ShortMonths),
            normalized(locale@),
            key as int,
        ),
{
    name_for(locales, Category::ShortMonths, key, locale)
}

/// The full name of the month with index `key` (January is 0) for `locale`,
/// a tag in any case with `-` or `_` between its subtags.
pub fn long_month(key: usize, locale: &str, locales: &Locales) -> (name: &'static str)
    requires
        key < 12,
    ensures
        Some(name@) == resolve(
            locales.names(Category::LongMonths),
            normalized(locale@),
            key as int,
        ),
{
    name_for(locales, Category::LongMonths, key, locale)
}

/// The abbreviated name of the weekday with index `key` (Monday is 0) for
/// `locale`, a tag in any case with `-` or `_` between its subtags.
pub fn short_weekday(key: usize, locale: &str, locales: &Locales) -> (name: &'static str)
    requires
        key < 7,
    ensures
        Some(name@) == resolve(
            locales.names(Category::ShortWeekdays),
            normalized(locale@),
            key as int,
        ),
{
    name_for(locales, Category::ShortWeekdays, key, locale)
}

/// The full name of the weekday with index `key` (Monday is 0) for
/// `locale`, a tag in any case with `-` or `_` between its subtags.
pub fn long_weekday(key: usize, locale: &str, locales: &Locales) -> (name: &'static str)
    requires
        key < 7,
    ensures
        Some(name@) == resolve(
            locales.names(Category::LongWeekdays),
            normalized(locale@),
            key as int,
        ),
{
    name_for(locales, Category::LongWeekdays, key, locale)
}

/// The AM/PM marker with index `key` for `locale`, a tag in any case with
/// `-` or `_` between its subtags: 0 and 1 are the markers in lower case, 2
/// and 3 those in upper case.
pub fn ampm(key: usize, locale: &str, locales: &Locales) -> (name: &'static str)
    requires
        key < 4,
    ensures
        Some(name@) == resolve(
            locales.names(Category::AmPm),
            normalized(locale@),
            key as int,
        ),
{
    name_for(locales, Category::AmPm, key, locale)
}

/// Looks up the name at index `index` of `category` for a locale tag as a
/// caller writes it: in any case, with `-` or `_` between the subtags.
///
/// A name is found for every index of the category, and for no other.
pub fn lookup(category: Category, index: usize, locale_tag: &str, locales: &Locales) -> (found:
    Option<&'static str>)
    ensures
        text_of(found) == resolve(
            locales.names(category),
            normalized(locale_tag@),
            index as int,
        ),
        found is Some <==> index < default_len(category),
{
    let tag = normalize(locale_tag);
    let data = locales.map(category);
    assert(map_wf(category, locales.names(category)));
    assert(data@.contains_key(default_tag()));
    assert(data@.contains_key(tag@) ==> admissible(category, tag@, data@[tag@]@.len()));
    assert(data@.contains_key(primary_subtag(tag@)) ==> admissible(
        category,
        primary_subtag(tag@),
        data@[primary_subtag(tag@)]@.len(),
    ));
    find_normalized_key(index, data, tag.as_str())
}

/// A tag made of a primary subtag, a `-` and more has that primary subtag.
pub proof fn lemma_primary_of_joined(primary: Seq<char>, rest: Seq<char>)
    requires
        !primary.contains('-'),
    ensures
        primary_subtag(primary + seq!['-'] + rest) == primary,
        (primary + seq!['-'] + rest).contains('-'),
{
    let tag = primary + seq!['-'] + rest;
    let at = primary.len() as int;
    assert(tag[at] == '-');
    assert forall|i: int| 0 <= i < at implies tag[i] != '-' by {
        assert(tag[i] == primary[i]);
        assert(primary.contains(primary[i]));
    }
    lemma_ends_primary_unique(tag, at);
    assert(tag.subrange(0, at) =~= primary);
}

/// Fallback to the default locale: for a tag that the table does not hold,
/// and whose primary subtag it does not hold either, a lookup in any
/// category gives what the default locale `"C"` has at the same index.
/// The tag is the one that is looked up, in lower case with `-`.
pub proof fn law_fallback_to_default(
    locales: Locales,
    category: Category,
    tag: Seq<char>,
    key: int,
)
    requires
        !locales.names(category).contains_key(tag),
        tag.contains('-') ==> !locales.names(category).contains_key(primary_subtag(tag)),
    ensures
        resolve(locales.names(category), tag, key) == name_at(
            locales.names(category),
            default_tag(),
            key,
        ),
{
}

/// Fallback to the primary subtag: for a tag `xx-yy` that the table does not
/// hold, while it holds `xx` with a name at the index, a lookup gives the
/// name of `xx`, whatever the default locale has there. The tag is the one
/// that is looked up, in lower case with `-`.
pub proof fn law_fallback_to_primary(
    locales: Locales,
    category: Category,
    primary: Seq<char>,
    region: Seq<char>,
    key: int,
)
    requires
        !primary.contains('-'),
        !locales.names(category).contains_key(primary + seq!['-'] + region),
        locales.names(category).contains_key(primary),
        0 <= key < locales.names(category)[primary]@.len(),
    ensures
        resolve(locales.names(category), primary + seq!['-'] + region, key) == Some(
            locales.names(category)[primary]@[key]@,
        ),
{
    lemma_primary_of_joined(primary, region);
}

/// The text of an offset from UTC of `off` seconds to the east: sign, hours
/// and minutes, each of two digits, with a colon between them if
/// `use_colon` is set; or `Z` for no offset, where `allow_zulu` is set.
pub open spec fn offset_text(off: int, allow_zulu: bool, use_colon: bool) -> Seq<char> {
    if allow_zulu && off == 0 {
        seq!['Z']
    } else {
        let sign = if off < 0 {
            '-'
        } else {
            '+'
        };
        let colon = if use_colon {
            seq![':']
        } else {
            Seq::<char>::empty()
        };
        seq![sign] + render_number(magnitude(off) as int / 3600, Pad::Zero, 2, false) + colon
            + render_number(magnitude(off) as int / 60 % 60, Pad::Zero, 2, false)
    }
}

/// Appends to `w` an offset from UTC of `off` seconds to the east, as
/// `+HHMM`, or `+HH:MM` if `use_colon` is set. Where `allow_zulu` is set, no
/// offset is written as `Z`.
pub fn write_local_minus_utc(w: &mut String, off: i32, allow_zulu: bool, use_colon: bool)
    ensures
        final(w)@ == old(w)@ + offset_text(off as int, allow_zulu, use_colon),
{
    let ghost start = w@;
    if !allow_zulu || off != 0 {
        let seconds: i64 = magnitude_of(off as i64) as i64;
        let sign = if off < 0 {
            '-'
        } else {
            '+'
        };
        w.push(sign);
        push_number(w, seconds / 3600, Pad::Zero, 2, false);
        if use_colon {
            w.push(':');
        }
        push_number(w, seconds / 60 % 60, Pad::Zero, 2, false);
        assert(w@ =~= start + offset_text(off as int, allow_zulu, use_colon));
    } else {
        w.push('Z');
        assert(w@ =~= start + offset_text(off as int, allow_zulu, use_colon));
    }
}

} // verus!

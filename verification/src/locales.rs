//! The table of locale-dependent names.
use vstd::hash_map::StringHashMap;
use vstd::prelude::*;
use vstd::string::*;

verus! {

/// The five kinds of name that a locale defines.
#[derive(Clone, Copy, Debug, PartialEq, Eq, Structural)]
pub enum Category {
    /// Abbreviated month names, January first.
    ShortMonths,
    /// Full month names, January first.
    LongMonths,
    /// Abbreviated weekday names, Monday first.
    ShortWeekdays,
    /// Full weekday names, Monday first.
    LongWeekdays,
    /// The markers for ante and post meridiem: lower case first, upper case
    /// after them where the locale has both.
    AmPm,
}

/// The names of one category, by locale tag.
pub type NameMap = Map<Seq<char>, Vec<&'static str>>;

/// The tag of the default locale, under which every lookup ends.
pub open spec fn default_tag() -> Seq<char> {
    seq!['C']
}

/// The texts of a list of names.
pub open spec fn texts(names: Vec<&'static str>) -> Seq<Seq<char>> {
    names@.map_values(|name: &'static str| name@)
}

/// Whether a list of `len` names is complete for `category`.
pub open spec fn fits(category: Category, len: nat) -> bool {
    match category {
        Category::ShortMonths | Category::LongMonths => len == 12,
        Category::ShortWeekdays | Category::LongWeekdays => len == 7,
        Category::AmPm => len == 2 || len == 4,
    }
}

/// The number of names that the default locale holds for `category`.
pub open spec fn default_len(category: Category) -> nat {
    match category {
        Category::ShortMonths | Category::LongMonths => 12,
        Category::ShortWeekdays | Category::LongWeekdays => 7,
        Category::AmPm => 4,
    }
}

/// Whether `names` may stand under `tag` in `category`: the list is complete,
/// and for the default locale it is the longest form.
pub open spec fn admissible(category: Category, tag: Seq<char>, len: nat) -> bool {
    &&& fits(category, len)
    &&& tag == default_tag() ==> len == default_len(category)
}

/// Whether a map of names is well formed for `category`: every list is
/// complete, and the default locale is present in its longest form.
pub open spec fn map_wf(category: Category, names: NameMap) -> bool {
    &&& names.contains_key(default_tag())
    &&& forall|tag: Seq<char>| #[trigger]
        names.contains_key(tag) ==> admissible(category, tag, names[tag]@.len())
}

/// The names of the default locale `"C"`: English.
pub open spec fn default_names(category: Category) -> Seq<Seq<char>> {
    match category {
        Category::ShortMonths => seq![
            "Jan"@,
            "Feb"@,
            "Mar"@,
            "Apr"@,
            "May"@,
            "Jun"@,
            "Jul"@,
            "Aug"@,
            "Sep"@,
            "Oct"@,
            "Nov"@,
            "Dec"@,
        ],
        Category::LongMonths => seq![
            "January"@,
            "February"@,
            "March"@,
            "April"@,
            "May"@,
            "June"@,
            "July"@,
            "August"@,
            "September"@,
            "October"@,
            "November"@,
            "December"@,
        ],
        Category::ShortWeekdays => seq![
            "Mon"@,
            "Tue"@,
            "Wed"@,
            "Thu"@,
            "Fri"@,
            "Sat"@,
            "Sun"@,
        ],
        Category::LongWeekdays => seq![
            "Monday"@,
            "Tuesday"@,
            "Wednesday"@,
            "Thursday"@,
            "Friday"@,
            "Saturday"@,
            "Sunday"@,
        ],
        Category::AmPm => seq!["am"@, "pm"@, "AM"@, "PM"@],
    }
}

/// The list of names of the default locale for `category`.
pub fn default_list(category: Category) -> (names: Vec<&'static str>)
    ensures
        texts(names) == default_names(category),
        names@.len() == default_len(category),
{
    let names: Vec<&'static str> = match category {
        Category::ShortMonths => vec![
            "Jan",
            "Feb",
            "Mar",
            "Apr",
            "May",
            "Jun",
            "Jul",
            "Aug",
            "Sep",
            "Oct",
            "Nov",
            "Dec",
        ],
        Category::LongMonths => vec![
            "January",
            "February",
            "March",
            "April",
            "May",
            "June",
            "July",
            "August",
            "September",
            "October",
            "November",
            "December",
        ],
        Category::ShortWeekdays => vec!["Mon", "Tue", "Wed", "Thu", "Fri", "Sat", "Sun"],
        Category::LongWeekdays => vec![
            "Monday",
            "Tuesday",
            "Wednesday",
            "Thursday",
            "Friday",
            "Saturday",
            "Sunday",
        ],
        Category::AmPm => vec!["am", "pm", "AM", "PM"],
    };
    assert(texts(names) =~= default_names(category));
    names
}

/// A map that holds `names` under the default tag and nothing else.
fn default_only(names: Vec<&'static str>) -> (map: StringHashMap<Vec<&'static str>>)
    ensures
        map@ == Map::<Seq<char>, Vec<&'static str>>::empty().insert(default_tag(), names),
{
    let mut map: StringHashMap<Vec<&'static str>> = StringHashMap::new();
    let tag = String::from_str("C");
    proof {
        reveal_strlit("C");
        assert(tag@ =~= default_tag());
    }
    map.insert(tag, names);
    map
}

/// Whether `tag` is the default tag `"C"`.
pub fn is_default_tag(tag: &str) -> (yes: bool)
    ensures
        yes == (tag@ == default_tag()),
{
    if tag.unicode_len() != 1 {
        return false;
    }
    let first = tag.get_char(0);
    assert(first == 'C' ==> tag@ =~= default_tag());
    first == 'C'
}

/// The table of names: for each category a map from locale tag to the list
/// of names in that locale.
pub struct Locales {
    short_months: StringHashMap<Vec<&'static str>>,
    long_months: StringHashMap<Vec<&'static str>>,
    short_weekdays: StringHashMap<Vec<&'static str>>,
    long_weekdays: StringHashMap<Vec<&'static str>>,
    ampm: StringHashMap<Vec<&'static str>>,
}

impl Locales {
    /// The names of `category`, by locale tag.
    pub closed spec fn names(&self, category: Category) -> NameMap {
        match category {
            Category::ShortMonths => self.short_months@,
            Category::LongMonths => self.long_months@,
            Category::ShortWeekdays => self.short_weekdays@,
            Category::LongWeekdays => self.long_weekdays@,
            Category::AmPm => self.ampm@,
        }
    }

    /// What holds of every table: in every category each list is complete
    /// and the default locale `"C"` is present.
    pub open spec fn wf(&self) -> bool {
        &&& map_wf(Category::ShortMonths, self.names(Category::ShortMonths))
        &&& map_wf(Category::LongMonths, self.names(Category::LongMonths))
        &&& map_wf(Category::ShortWeekdays, self.names(Category::ShortWeekdays))
        &&& map_wf(Category::LongWeekdays, self.names(Category::LongWeekdays))
        &&& map_wf(Category::AmPm, self.names(Category::AmPm))
    }

    #[verifier::type_invariant]
    spec fn inv(&self) -> bool {
        self.wf()
    }

    /// The map of `category`.
    pub fn map(&self, category: Category) -> (data: &StringHashMap<Vec<&'static str>>)
        ensures
            data@ == self.names(category),
            self.wf(),
    {
        proof {
            use_type_invariant(self);
        }
        match category {
            Category::ShortMonths => &self.short_months,
            Category::LongMonths => &self.long_months,
            Category::ShortWeekdays => &self.short_weekdays,
            Category::LongWeekdays => &self.long_weekdays,
            Category::AmPm => &self.ampm,
        }
    }

    /// A table that holds the default locale `"C"` and no other.
    pub fn new() -> (table: Locales)
        ensures
            table.wf(),
            forall|category: Category|
                #![trigger table.names(category)]
                table.names(category).dom() == set![default_tag()] && texts(
                    table.names(category)[default_tag()],
                ) == default_names(category),
    {
        let table = Locales {
            short_months: default_only(default_list(Category::ShortMonths)),
            long_months: default_only(default_list(Category::LongMonths)),
            short_weekdays: default_only(default_list(Category::ShortWeekdays)),
            long_weekdays: default_only(default_list(Category::LongWeekdays)),
            ampm: default_only(default_list(Category::AmPm)),
        };
        assert forall|category: Category|
            #![trigger table.names(category)]
            table.names(category).dom() == set![default_tag()] && texts(
                table.names(category)[default_tag()],
            ) == default_names(category) by {
            assert(table.names(category).dom() =~= set![default_tag()]);
        }
        table
    }

    /// The table with `names` under `tag` in `category`, in place of what
    /// stood there, and `true`, if the list is complete for the category;
    /// the table as it was and `false` if it is not.
    ///
    /// A list for the default locale `"C"` has to be of the longest form.
    pub fn insert(self, category: Category, tag: &str, names: Vec<&'static str>) -> (out: (
        Locales,
        bool,
    ))
        ensures
            out.1 == admissible(category, tag@, names@.len()),
            out.1 ==> out.0.names(category) == self.names(category).insert(tag@, names),
            !out.1 ==> out.0.names(category) == self.names(category),
            forall|other: Category|
                other != category ==> out.0.names(other) == self.names(other),
    {
        proof {
            use_type_invariant(&self);
        }
        let len = names.len();
        let complete = match category {
            Category::ShortMonths | Category::LongMonths => len == 12,
            Category::ShortWeekdays | Category::LongWeekdays => len == 7,
            Category::AmPm => len == 2 || len == 4,
        };
        let is_default = is_default_tag(tag);
        let longest = match category {
            Category::ShortMonths | Category::LongMonths => len == 12,
            Category::ShortWeekdays | Category::LongWeekdays => len == 7,
            Category::AmPm => len == 4,
        };
        if !complete || (is_default && !longest) {
            return (self, false);
        }
        let key = String::from_str(tag);
        let Locales {
            mut short_months,
            mut long_months,
            mut short_weekdays,
            mut long_weekdays,
            mut ampm,
        } = self;
        match category {
            Category::ShortMonths => short_months.insert(key, names),
            Category::LongMonths => long_months.insert(key, names),
            Category::ShortWeekdays => short_weekdays.insert(key, names),
            Category::LongWeekdays => long_weekdays.insert(key, names),
            Category::AmPm => ampm.insert(key, names),
        }
        (Locales { short_months, long_months, short_weekdays, long_weekdays, ampm }, true)
    }
}

} // verus!

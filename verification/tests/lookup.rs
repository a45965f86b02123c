use chrono_lc::util::{name_in, normalize, replace_underscores};
use chrono_lc::{
    ampm, find_key, find_normalized_key, long_month, long_weekday, lookup, short_month,
    short_weekday, Category, Locales,
};

const IT_SHORT_MONTHS: [&str; 12] =
    ["Gen", "Feb", "Mar", "Apr", "Mag", "Giu", "Lug", "Ago", "Set", "Ott", "Nov", "Dic"];
const IT_LONG_MONTHS: [&str; 12] = [
    "Gennaio", "Febbraio", "Marzo", "Aprile", "Maggio", "Giugno", "Luglio", "Agosto",
    "Settembre", "Ottobre", "Novembre", "Dicembre",
];
const IT_SHORT_WEEKDAYS: [&str; 7] = ["Lun", "Mar", "Mer", "Gio", "Ven", "Sab", "Dom"];
const IT_LONG_WEEKDAYS: [&str; 7] =
    ["Lunedì", "Martedì", "Mercoledì", "Giovedì", "Venerdì", "Sabato", "Domenica"];
const PT_BR_SHORT_WEEKDAYS: [&str; 7] = ["seg", "ter", "qua", "qui", "sex", "sáb", "dom"];

fn put(table: Locales, category: Category, tag: &str, names: &[&'static str]) -> Locales {
    let (table, done) = table.insert(category, tag, names.to_vec());
    assert!(done);
    table
}

fn table() -> Locales {
    let table = Locales::new();
    let table = put(table, Category::ShortMonths, "it", &IT_SHORT_MONTHS);
    let table = put(table, Category::LongMonths, "it", &IT_LONG_MONTHS);
    let table = put(table, Category::ShortWeekdays, "it", &IT_SHORT_WEEKDAYS);
    let table = put(table, Category::LongWeekdays, "it", &IT_LONG_WEEKDAYS);
    let table = put(table, Category::AmPm, "it", &["di mattina", "di sera"]);
    put(table, Category::ShortWeekdays, "pt-br", &PT_BR_SHORT_WEEKDAYS)
}

#[test]
fn new_table_holds_the_default_locale() {
    let table = Locales::new();
    assert_eq!(short_month(0, "C", &table), "Jan");
    assert_eq!(short_month(11, "C", &table), "Dec");
    assert_eq!(long_month(0, "C", &table), "January");
    assert_eq!(long_month(8, "C", &table), "September");
    assert_eq!(short_weekday(0, "C", &table), "Mon");
    assert_eq!(short_weekday(6, "C", &table), "Sun");
    assert_eq!(long_weekday(2, "C", &table), "Wednesday");
    assert_eq!(ampm(0, "C", &table), "am");
    assert_eq!(ampm(1, "C", &table), "pm");
    assert_eq!(ampm(2, "C", &table), "AM");
    assert_eq!(ampm(3, "C", &table), "PM");
}

#[test]
fn exact_tag_is_found_first() {
    let table = table();
    assert_eq!(short_month(6, "it", &table), "Lug");
    assert_eq!(long_month(6, "it", &table), "Luglio");
    assert_eq!(short_weekday(6, "it", &table), "Dom");
    assert_eq!(long_weekday(6, "it", &table), "Domenica");
    assert_eq!(ampm(1, "it", &table), "di sera");
    assert_eq!(short_weekday(0, "pt-br", &table), "seg");
}

#[test]
fn unknown_tag_falls_back_to_default() {
    let table = table();
    for key in 0..12 {
        assert_eq!(short_month(key, "xx", &table), short_month(key, "C", &table));
        assert_eq!(long_month(key, "zz-ZZ", &table), long_month(key, "C", &table));
    }
    for key in 0..7 {
        assert_eq!(short_weekday(key, "xx", &table), short_weekday(key, "C", &table));
        assert_eq!(long_weekday(key, "", &table), long_weekday(key, "C", &table));
    }
    for key in 0..4 {
        assert_eq!(ampm(key, "nope", &table), ampm(key, "C", &table));
    }
    assert_eq!(short_month(6, "xx", &table), "Jul");
}

#[test]
fn region_falls_back_to_primary_subtag() {
    let table = table();
    assert_eq!(short_month(6, "it-it", &table), "Lug");
    assert_eq!(long_month(0, "it-ch", &table), "Gennaio");
    assert_eq!(long_weekday(0, "it-", &table), "Lunedì");
    assert_eq!(short_weekday(6, "it-it-extra", &table), "Dom");
}

#[test]
fn primary_subtag_is_not_tried_without_a_dash() {
    let table = table();
    // "pt" has no entry of its own, and "pt-br" is not a fallback of it.
    assert_eq!(short_weekday(0, "pt", &table), "Mon");
    // the whole tag is tried before its primary subtag
    assert_eq!(short_weekday(0, "pt-br", &table), "seg");
    // another region of "pt" falls back to "pt", which is absent, then to "C"
    assert_eq!(short_weekday(0, "pt-pt", &table), "Mon");
}

#[test]
fn find_key_normalizes_the_tag() {
    let table = table();
    let data = table.map(Category::ShortMonths);
    assert_eq!(find_key(6, data, "it"), Some("Lug"));
    assert_eq!(find_key(6, data, "IT"), Some("Lug"));
    assert_eq!(find_key(6, data, "It"), Some("Lug"));
    assert_eq!(find_key(6, data, "it_IT"), Some("Lug"));
    assert_eq!(find_key(6, data, "it-IT"), Some("Lug"));
    assert_eq!(find_key(6, data, "IT_ch"), Some("Lug"));
    assert_eq!(find_key(6, data, "xx"), Some("Jul"));
    assert_eq!(find_key(6, data, "XX_it"), Some("Jul"));
    // "C" itself is lowered to "c", which is no entry: the default serves it
    assert_eq!(find_key(6, data, "C"), Some("Jul"));
    let data = table.map(Category::ShortWeekdays);
    assert_eq!(find_key(0, data, "PT_br"), Some("seg"));
    assert_eq!(find_key(0, data, "pt-BR"), Some("seg"));
    assert_eq!(find_key(0, data, "PT"), Some("Mon"));
}

#[test]
fn normalized_tag_is_taken_as_it_stands() {
    let table = table();
    let data = table.map(Category::ShortMonths);
    assert_eq!(find_normalized_key(6, data, "it"), Some("Lug"));
    assert_eq!(find_normalized_key(6, data, "it-it"), Some("Lug"));
    assert_eq!(find_normalized_key(6, data, "it-"), Some("Lug"));
    assert_eq!(find_normalized_key(6, data, "xx-it"), Some("Jul"));
    assert_eq!(find_normalized_key(6, data, ""), Some("Jul"));
    assert_eq!(find_normalized_key(12, data, "it"), None);
    // a tag in another form is looked up as another tag
    assert_eq!(find_normalized_key(6, data, "IT"), Some("Jul"));
    assert_eq!(find_normalized_key(6, data, "it_it"), Some("Jul"));
    assert_eq!(find_normalized_key(6, data, "it-IT"), Some("Lug"));
    assert_eq!(name_in(&table, Category::ShortMonths, 6, "IT"), "Jul");
    assert_eq!(name_in(&table, Category::ShortMonths, 6, "it"), "Lug");
}

#[test]
fn accessors_normalize_the_tag() {
    let table = table();
    assert_eq!(short_month(6, "IT", &table), "Lug");
    assert_eq!(long_month(6, "it_IT", &table), "Luglio");
    assert_eq!(short_weekday(6, "It-Ch", &table), "Dom");
    assert_eq!(long_weekday(6, "IT_", &table), "Domenica");
    assert_eq!(ampm(1, "IT", &table), "di sera");
    assert_eq!(ampm(3, "IT", &table), "PM");
    assert_eq!(short_weekday(0, "PT_br", &table), "seg");
    assert_eq!(short_weekday(0, "PT_pt", &table), "Mon");
}

#[test]
fn underscores_become_dashes() {
    assert_eq!(replace_underscores("en_gb"), "en-gb");
    assert_eq!(replace_underscores("__"), "--");
    assert_eq!(replace_underscores("a-b_c"), "a-b-c");
    assert_eq!(replace_underscores("śr_ół"), "śr-ół");
    assert_eq!(replace_underscores("plain"), "plain");
    assert_eq!(replace_underscores(""), "");
}

#[test]
fn missing_index_falls_through() {
    let table = table();
    // "it" has two markers only: the upper-case ones come from "C"
    assert_eq!(ampm(0, "it", &table), "di mattina");
    assert_eq!(ampm(2, "it", &table), "AM");
    assert_eq!(ampm(3, "it-it", &table), "PM");
    assert_eq!(find_key(2, table.map(Category::AmPm), "it"), Some("AM"));
}

#[test]
fn index_beyond_the_default_locale_finds_nothing() {
    let table = table();
    assert_eq!(find_key(12, table.map(Category::ShortMonths), "it"), None);
    assert_eq!(find_key(7, table.map(Category::LongWeekdays), "C"), None);
    assert_eq!(find_key(4, table.map(Category::AmPm), "xx-yy"), None);
    assert_eq!(lookup(Category::ShortMonths, 12, "it", &table), None);
    assert_eq!(lookup(Category::AmPm, usize::MAX, "it", &table), None);
}

#[test]
fn lookup_normalizes_the_tag() {
    let table = table();
    assert_eq!(lookup(Category::ShortMonths, 6, "it", &table), Some("Lug"));
    assert_eq!(lookup(Category::ShortMonths, 6, "IT", &table), Some("Lug"));
    assert_eq!(lookup(Category::LongMonths, 6, "it_IT", &table), Some("Luglio"));
    assert_eq!(lookup(Category::LongMonths, 6, "It-cH", &table), Some("Luglio"));
    assert_eq!(lookup(Category::ShortWeekdays, 0, "PT_br", &table), Some("seg"));
    assert_eq!(lookup(Category::ShortWeekdays, 0, "pt_BR", &table), Some("seg"));
    assert_eq!(lookup(Category::ShortWeekdays, 0, "PT_pt", &table), Some("Mon"));
    assert_eq!(lookup(Category::LongWeekdays, 6, "en_GB", &table), Some("Sunday"));
    // "C" itself is lowered to "c", which is no entry: the default serves it
    assert_eq!(lookup(Category::AmPm, 3, "C", &table), Some("PM"));
}

#[test]
fn normalize_lowers_and_puts_dashes() {
    assert_eq!(normalize("en_GB"), "en-gb");
    assert_eq!(normalize("it-IT"), "it-it");
    assert_eq!(normalize("fr-fr"), "fr-fr");
    assert_eq!(normalize("PT_br"), "pt-br");
    assert_eq!(normalize("a_B_c"), "a-b-c");
    assert_eq!(normalize(""), "");
    assert_eq!(normalize("C"), "c");
}

#[test]
fn name_in_agrees_with_the_named_accessors() {
    let table = table();
    assert_eq!(name_in(&table, Category::ShortMonths, 6, "it"), short_month(6, "it", &table));
    assert_eq!(name_in(&table, Category::LongMonths, 6, "it"), long_month(6, "it", &table));
    assert_eq!(name_in(&table, Category::ShortWeekdays, 6, "it"), short_weekday(6, "it", &table));
    assert_eq!(name_in(&table, Category::LongWeekdays, 6, "it"), long_weekday(6, "it", &table));
    assert_eq!(name_in(&table, Category::AmPm, 1, "it"), ampm(1, "it", &table));
}

#[test]
fn insert_refuses_incomplete_lists() {
    let table = Locales::new();
    let (table, done) = table.insert(Category::ShortMonths, "xx", vec!["a"; 11]);
    assert!(!done);
    let (table, done) = table.insert(Category::LongMonths, "xx", vec!["a"; 13]);
    assert!(!done);
    let (table, done) = table.insert(Category::ShortWeekdays, "xx", vec!["a"; 6]);
    assert!(!done);
    let (table, done) = table.insert(Category::LongWeekdays, "xx", vec![]);
    assert!(!done);
    let (table, done) = table.insert(Category::AmPm, "xx", vec!["a"; 3]);
    assert!(!done);
    // nothing was put: every lookup under "xx" still ends at the default
    assert_eq!(short_month(0, "xx", &table), "Jan");
    assert_eq!(long_month(0, "xx", &table), "January");
    assert_eq!(short_weekday(0, "xx", &table), "Mon");
    assert_eq!(long_weekday(0, "xx", &table), "Monday");
    assert_eq!(ampm(0, "xx", &table), "am");
}

#[test]
fn insert_accepts_both_forms_of_markers() {
    let table = Locales::new();
    let (table, done) = table.insert(Category::AmPm, "xx", vec!["a", "p"]);
    assert!(done);
    let (table, done) = table.insert(Category::AmPm, "yy", vec!["a", "p", "A", "P"]);
    assert!(done);
    assert_eq!(ampm(1, "xx", &table), "p");
    assert_eq!(ampm(3, "xx", &table), "PM");
    assert_eq!(ampm(3, "yy", &table), "P");
}

#[test]
fn default_locale_keeps_its_longest_form() {
    let table = Locales::new();
    let (table, done) = table.insert(Category::AmPm, "C", vec!["a", "p"]);
    assert!(!done);
    assert_eq!(ampm(3, "C", &table), "PM");
    let (table, done) = table.insert(Category::AmPm, "C", vec!["a", "p", "A", "P"]);
    assert!(done);
    assert_eq!(ampm(3, "C", &table), "P");
    assert_eq!(ampm(3, "unknown", &table), "P");
}

#[test]
fn insert_replaces_an_entry() {
    let table = table();
    let table = put(table, Category::ShortWeekdays, "it", &["lu", "ma", "me", "gi", "ve", "sa", "do"]);
    assert_eq!(short_weekday(6, "it", &table), "do");
    assert_eq!(long_weekday(6, "it", &table), "Domenica");
}

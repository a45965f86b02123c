use chrono_lc::write_local_minus_utc;

fn offset(off: i32, allow_zulu: bool, use_colon: bool) -> String {
    let mut out = String::from("UTC");
    write_local_minus_utc(&mut out, off, allow_zulu, use_colon);
    assert!(out.starts_with("UTC"));
    out.split_off(3)
}

#[test]
fn offset_east_with_and_without_colon() {
    assert_eq!(offset(34_200, false, false), "+0930");
    assert_eq!(offset(34_200, false, true), "+09:30");
    assert_eq!(offset(34_200, true, false), "+0930");
    assert_eq!(offset(34_200, true, true), "+09:30");
}

#[test]
fn offset_west_has_a_minus() {
    assert_eq!(offset(-3_600, false, false), "-0100");
    assert_eq!(offset(-12_600, false, true), "-03:30");
    assert_eq!(offset(-60, false, true), "-00:01");
}

#[test]
fn no_offset_is_zulu_where_allowed() {
    assert_eq!(offset(0, true, false), "Z");
    assert_eq!(offset(0, true, true), "Z");
    assert_eq!(offset(0, false, false), "+0000");
    assert_eq!(offset(0, false, true), "+00:00");
}

#[test]
fn seconds_of_an_offset_are_dropped() {
    assert_eq!(offset(59, false, false), "+0000");
    assert_eq!(offset(59, true, true), "+00:00");
    assert_eq!(offset(-59, false, true), "-00:00");
    assert_eq!(offset(3_661, false, true), "+01:01");
}

#[test]
fn offset_at_the_ends_of_a_day() {
    assert_eq!(offset(86_399, false, true), "+23:59");
    assert_eq!(offset(-86_399, false, false), "-2359");
}

#[test]
fn offset_beyond_a_day_keeps_all_digits() {
    assert_eq!(offset(360_000, false, true), "+100:00");
    assert_eq!(offset(i32::MAX, false, false), "+59652314");
    assert_eq!(offset(i32::MIN, false, true), "-596523:14");
}

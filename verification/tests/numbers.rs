use chrono_lc::digits::{decimal_len, magnitude_of, push_number};
use chrono::format::Pad;

fn number(v: i64, pad: Pad, width: usize, plus: bool) -> String {
    let mut out = String::from("<");
    push_number(&mut out, v, pad, width, plus);
    out.push('>');
    out
}

#[test]
fn bare_number_has_no_padding() {
    assert_eq!(number(0, Pad::None, 4, false), "<0>");
    assert_eq!(number(7, Pad::None, 2, false), "<7>");
    assert_eq!(number(-7, Pad::None, 2, false), "<-7>");
    assert_eq!(number(1234567, Pad::None, 2, false), "<1234567>");
}

#[test]
fn zero_padding_goes_after_the_sign() {
    assert_eq!(number(7, Pad::Zero, 2, false), "<07>");
    assert_eq!(number(-5, Pad::Zero, 5, true), "<-0005>");
    assert_eq!(number(-5, Pad::Zero, 4, false), "<-005>");
    assert_eq!(number(10500, Pad::Zero, 5, true), "<+10500>");
    assert_eq!(number(123, Pad::Zero, 2, false), "<123>");
}

#[test]
fn space_padding_goes_before_the_sign() {
    assert_eq!(number(8, Pad::Space, 2, false), "< 8>");
    assert_eq!(number(-5, Pad::Space, 5, true), "<   -5>");
    assert_eq!(number(5, Pad::Space, 5, true), "<   +5>");
}

#[test]
fn extreme_numbers_are_rendered() {
    assert_eq!(number(i64::MIN, Pad::None, 1, false), "<-9223372036854775808>");
    assert_eq!(number(i64::MAX, Pad::Zero, 21, true), "<+09223372036854775807>");
}

#[test]
fn numbers_are_rendered_as_the_standard_library_does() {
    let values = [
        0,
        1,
        -1,
        9,
        10,
        -10,
        99,
        100,
        2001,
        -5,
        9_999,
        10_000,
        10_500,
        -9_999,
        123_456_789,
        -123_456_789,
        i64::MAX,
        i64::MIN,
    ];
    for v in values {
        assert_eq!(number(v, Pad::None, 3, false), format!("<{}>", v));
        assert_eq!(number(v, Pad::None, 3, true), format!("<{:+}>", v));
        for width in 0..12 {
            assert_eq!(number(v, Pad::Zero, width, false), format!("<{:01$}>", v, width));
            assert_eq!(number(v, Pad::Space, width, false), format!("<{:1$}>", v, width));
            assert_eq!(number(v, Pad::Zero, width, true), format!("<{:+01$}>", v, width));
            assert_eq!(number(v, Pad::Space, width, true), format!("<{:+1$}>", v, width));
        }
    }
}

#[test]
fn digits_are_counted() {
    assert_eq!(decimal_len(0), 1);
    assert_eq!(decimal_len(9), 1);
    assert_eq!(decimal_len(10), 2);
    assert_eq!(decimal_len(99_999), 5);
    assert_eq!(decimal_len(100_000), 6);
    assert_eq!(decimal_len(u64::MAX), 20);
    assert_eq!(magnitude_of(0), 0);
    assert_eq!(magnitude_of(-1), 1);
    assert_eq!(magnitude_of(i64::MAX), 9_223_372_036_854_775_807);
    assert_eq!(magnitude_of(i64::MIN), 9_223_372_036_854_775_808);
}

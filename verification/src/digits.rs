//! Decimal rendering of integers with sign and padding.
use chrono::format::Pad;
use vstd::prelude::*;
use vstd::string::*;

verus! {

/// `String::push` appends the character to the end of the string.
pub assume_specification[ String::push ](s: &mut String, c: char)
    ensures
        final(s)@ == old(s)@.push(c),
;

/// The character that stands for the decimal digit `d`.
pub open spec fn digit_char(d: int) -> char {
    if d == 0 {
        '0'
    } else if d == 1 {
        '1'
    } else if d == 2 {
        '2'
    } else if d == 3 {
        '3'
    } else if d == 4 {
        '4'
    } else if d == 5 {
        '5'
    } else if d == 6 {
        '6'
    } else if d == 7 {
        '7'
    } else if d == 8 {
        '8'
    } else {
        '9'
    }
}

/// The decimal digits of `n`, most significant first, without leading zeros
/// (a single `0` for zero).
pub open spec fn decimal(n: nat) -> Seq<char>
    decreases n,
{
    if n < 10 {
        seq![digit_char(n as int)]
    } else {
        decimal(n / 10).push(digit_char((n % 10) as int))
    }
}

/// `count` copies of `c`.
pub open spec fn repeat(c: char, count: nat) -> Seq<char> {
    Seq::new(count, |i: int| c)
}

/// The absolute value of `v`.
pub open spec fn magnitude(v: int) -> nat {
    if v < 0 {
        (-v) as nat
    } else {
        v as nat
    }
}

/// The sign that is printed before `v`: `-` for a negative value, `+` for
/// another one if `plus` asks for an explicit sign, else nothing.
pub open spec fn sign_of(v: int, plus: bool) -> Seq<char> {
    if v < 0 {
        seq!['-']
    } else if plus {
        seq!['+']
    } else {
        Seq::empty()
    }
}

/// How many fill characters bring sign and digits of `v` up to `width`.
pub open spec fn fill_len(v: int, width: nat, plus: bool) -> nat {
    let used = sign_of(v, plus).len() + decimal(magnitude(v)).len();
    if width > used {
        (width - used) as nat
    } else {
        0
    }
}

/// The text of `v` in decimal, at least `width` characters wide.
///
/// Zeros are filled in between sign and digits, spaces before the sign;
/// without padding the width is ignored.
pub open spec fn render_number(v: int, pad: Pad, width: nat, plus: bool) -> Seq<char> {
    match pad {
        Pad::None => sign_of(v, plus) + decimal(magnitude(v)),
        Pad::Zero => sign_of(v, plus) + repeat('0', fill_len(v, width, plus)) + decimal(
            magnitude(v),
        ),
        Pad::Space => repeat(' ', fill_len(v, width, plus)) + sign_of(v, plus) + decimal(
            magnitude(v),
        ),
    }
}

/// The digit `d` as a character.
pub fn digit_to_char(d: u64) -> (c: char)
    requires
        d < 10,
    ensures
        c == digit_char(d as int),
{
    if d == 0 {
        '0'
    } else if d == 1 {
        '1'
    } else if d == 2 {
        '2'
    } else if d == 3 {
        '3'
    } else if d == 4 {
        '4'
    } else if d == 5 {
        '5'
    } else if d == 6 {
        '6'
    } else if d == 7 {
        '7'
    } else if d == 8 {
        '8'
    } else {
        '9'
    }
}

/// Appends the decimal digits of `n` to `w`.
pub fn push_decimal(w: &mut String, n: u64)
    ensures
        final(w)@ == old(w)@ + decimal(n as nat),
    decreases n,
{
    if n >= 10 {
        push_decimal(w, n / 10);
    }
    w.push(digit_to_char(n % 10));
}

/// Ten to the power `k`.
pub open spec fn pow10(k: nat) -> nat
    decreases k,
{
    if k == 0 {
        1
    } else {
        10 * pow10((k - 1) as nat)
    }
}

/// A number below `10^k` has at most `k` digits.
pub proof fn lemma_decimal_len_bound(n: nat, k: nat)
    requires
        k >= 1,
        n < pow10(k),
    ensures
        1 <= decimal(n).len() <= k,
    decreases k,
{
    if n >= 10 {
        assert(pow10(1) == 10) by {
            reveal_with_fuel(pow10, 2);
        }
        assert(k >= 2);
        assert(n / 10 < pow10((k - 1) as nat));
        lemma_decimal_len_bound(n / 10, (k - 1) as nat);
    }
}

/// A 64-bit number has at most 20 digits.
pub proof fn lemma_decimal_len_u64(n: u64)
    ensures
        1 <= decimal(n as nat).len() <= 20,
{
    assert(pow10(20) == 100_000_000_000_000_000_000nat) by {
        reveal_with_fuel(pow10, 21);
    }
    lemma_decimal_len_bound(n as nat, 20);
}

/// The number of decimal digits of `n`.
pub fn decimal_len(n: u64) -> (len: usize)
    ensures
        len == decimal(n as nat).len(),
        1 <= len <= 20,
    decreases n,
{
    proof {
        lemma_decimal_len_u64(n);
    }
    if n < 10 {
        1
    } else {
        1 + decimal_len(n / 10)
    }
}

/// Appends `count` copies of `c` to `w`.
pub fn push_repeat(w: &mut String, c: char, count: usize)
    ensures
        final(w)@ == old(w)@ + repeat(c, count as nat),
{
    let mut done: usize = 0;
    while done < count
        invariant
            done <= count,
            w@ == old(w)@ + repeat(c, done as nat),
        decreases count - done,
    {
        w.push(c);
        done = done + 1;
        assert(w@ =~= old(w)@ + repeat(c, done as nat));
    }
}

/// The absolute value of `v` as an unsigned number.
pub fn magnitude_of(v: i64) -> (m: u64)
    ensures
        m == magnitude(v as int),
{
    if v < 0 {
        let next: i64 = v + 1;
        let below: i64 = -next;
        below as u64 + 1
    } else {
        v as u64
    }
}

/// Appends the sign of `v` to `w`: `-` for a negative value, `+` for another
/// one if `plus` is set.
pub fn push_sign(w: &mut String, v: i64, plus: bool)
    ensures
        final(w)@ == old(w)@ + sign_of(v as int, plus),
{
    if v < 0 {
        w.push('-');
    } else if plus {
        w.push('+');
    }
    assert(w@ =~= old(w)@ + sign_of(v as int, plus));
}

/// Appends `v` in decimal to `w`, padded to at least `width` characters.
pub fn push_number(w: &mut String, v: i64, pad: Pad, width: usize, plus: bool)
    ensures
        final(w)@ == old(w)@ + render_number(v as int, pad, width as nat, plus),
{
    let m = magnitude_of(v);
    let sign_len: usize = if v < 0 || plus {
        1
    } else {
        0
    };
    let used: usize = sign_len + decimal_len(m);
    let fill: usize = if width > used {
        width - used
    } else {
        0
    };
    let ghost start = w@;
    let ghost sign = sign_of(v as int, plus);
    let ghost digits = decimal(m as nat);
    let ghost padding = repeat(if pad == Pad::Zero { '0' } else { ' ' }, fill as nat);
    assert(sign.len() == sign_len);
    assert(fill == fill_len(v as int, width as nat, plus));
    match pad {
        Pad::None => {
            push_sign(w, v, plus);
            push_decimal(w, m);
            assert(w@ =~= start + (sign + digits));
        },
        Pad::Zero => {
            push_sign(w, v, plus);
            push_repeat(w, '0', fill);
            push_decimal(w, m);
            assert(w@ =~= start + (sign + padding + digits));
        },
        Pad::Space => {
            push_repeat(w, ' ', fill);
            push_sign(w, v, plus);
            push_decimal(w, m);
            assert(w@ =~= start + (padding + sign + digits));
        },
    }
}

} // verus!

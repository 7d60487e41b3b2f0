use vstd::prelude::*;

use crate::civil::{
    days_before_month, days_before_year, days_from_civil, days_from_civil_exec,
    lemma_month_start_bounds, lemma_months_fill_year, lemma_next_year, lemma_year_start_bounds,
    month_len, valid_date, year_len,
};
use crate::timestamp::{four_digit_year, valid_instant, FOUR_DIGIT_YEARS_START};

verus! {

// ── The layout of an RFC 3339 date-time ─────────────────────────────────────
//
//   YYYY-MM-DD T hh:mm:ss [.fraction] (Z | +HH:MM | -HH:MM)
//
// with `t` or a space also accepted in place of `T`, `z` in place of `Z`, the
// minus sign U+2212 in place of `-`, any number of fraction digits (the first
// nine count), and a second of 60 for a leap second.

/// An ASCII decimal digit.
pub open spec fn is_digit(c: char) -> bool {
    '0' <= c && c <= '9'
}

/// The value of a digit character.
pub open spec fn digit_value(c: char) -> int {
    c as int - '0' as int
}

/// The characters of `t` at `lo..hi` are digits.
pub open spec fn digits_in(t: Seq<char>, lo: int, hi: int) -> bool {
    forall|k: int| lo <= k < hi ==> is_digit(#[trigger] t[k])
}

/// The two-digit number at `t[i..i + 2]`.
pub open spec fn two_digits(t: Seq<char>, i: int) -> int {
    10 * digit_value(t[i]) + digit_value(t[i + 1])
}

/// The decimal number that a string of digits spells.
pub open spec fn decimal_value(s: Seq<char>) -> int
    decreases s.len(),
{
    if s.len() == 0 {
        0
    } else {
        decimal_value(s.drop_last()) * 10 + digit_value(s.last())
    }
}

pub open spec fn text_year(t: Seq<char>) -> int {
    100 * two_digits(t, 0) + two_digits(t, 2)
}

pub open spec fn text_month(t: Seq<char>) -> int {
    two_digits(t, 5)
}

pub open spec fn text_day(t: Seq<char>) -> int {
    two_digits(t, 8)
}

pub open spec fn text_hour(t: Seq<char>) -> int {
    two_digits(t, 11)
}

pub open spec fn text_minute(t: Seq<char>) -> int {
    two_digits(t, 14)
}

pub open spec fn text_second(t: Seq<char>) -> int {
    two_digits(t, 17)
}

/// Length of the offset at the end of `t`: 1 for `Z`, else 6 for `±HH:MM`.
pub open spec fn offset_len(t: Seq<char>) -> int {
    if t.len() > 0 && (t.last() == 'Z' || t.last() == 'z') {
        1
    } else {
        6
    }
}

/// Index where the offset starts.
pub open spec fn offset_start(t: Seq<char>) -> int {
    t.len() - offset_len(t)
}

/// The fraction digits (after the `.`), empty when there is no fraction.
pub open spec fn fraction(t: Seq<char>) -> Seq<char> {
    if offset_start(t) > 19 {
        t.subrange(20, offset_start(t))
    } else {
        Seq::empty()
    }
}

/// The offset east of UTC that `t` states, in seconds: 0 for `Z`.
pub open spec fn offset_seconds(t: Seq<char>) -> int {
    if offset_len(t) == 1 {
        0
    } else {
        let e = offset_start(t);
        let v = two_digits(t, e + 1) * 3600 + two_digits(t, e + 4) * 60;
        if t[e] == '-' || t[e] == '\u{2212}' {
            -v
        } else {
            v
        }
    }
}

/// `t` is a date-time in RFC 3339 layout whose fields are in range: a real
/// calendar date of the years 0 to 9999, an hour up to 23, a minute up to
/// 59, a second up to 60 (a leap second), at least one fraction digit after
/// a `.`, and an offset up to 23:59 either way.
pub open spec fn rfc3339_layout(t: Seq<char>) -> bool {
    &&& t.len() >= 20
    &&& digits_in(t, 0, 4) && t[4] == '-' && digits_in(t, 5, 7) && t[7] == '-' && digits_in(t, 8, 10)
    &&& (t[10] == 'T' || t[10] == 't' || t[10] == ' ')
    &&& digits_in(t, 11, 13) && t[13] == ':' && digits_in(t, 14, 16) && t[16] == ':'
        && digits_in(t, 17, 19)
    &&& (offset_start(t) == 19 || (21 <= offset_start(t) && t[19] == '.' && digits_in(
        t,
        20,
        offset_start(t),
    )))
    &&& (offset_len(t) == 1 || (t.len() >= 25 && (t[offset_start(t)] == '+' || t[offset_start(t)]
        == '-' || t[offset_start(t)] == '\u{2212}') && digits_in(t, offset_start(t) + 1, offset_start(t) + 3) && t[offset_start(t) + 3]
        == ':' && digits_in(t, offset_start(t) + 4, offset_start(t) + 6)))
    &&& valid_date(text_year(t), text_month(t), text_day(t))
    &&& text_hour(t) <= 23 && text_minute(t) <= 59 && text_second(t) <= 60
    &&& (offset_len(t) == 1 || (two_digits(t, offset_start(t) + 1) <= 23 && two_digits(
        t,
        offset_start(t) + 4,
    ) <= 59))
}

/// The wall-clock time that `t` shows, as seconds from 1970-01-01T00:00:00
/// of that clock (a leap second counts as second 59).
pub open spec fn wall_seconds(t: Seq<char>) -> int {
    days_from_civil(text_year(t), text_month(t), text_day(t)) * 86400 + text_hour(t) * 3600
        + text_minute(t) * 60 + (if text_second(t) == 60 {
        59
    } else {
        text_second(t)
    })
}

/// The instant `t` denotes, in Unix seconds: its wall-clock time minus its
/// offset east of UTC.
pub open spec fn denoted_secs(t: Seq<char>) -> int {
    wall_seconds(t) - offset_seconds(t)
}

/// The first nine fraction digits, padded with `0` to nine, so that the
/// fraction reads as nanoseconds.
pub open spec fn padded_fraction(t: Seq<char>) -> Seq<char> {
    if fraction(t).len() >= 9 {
        fraction(t).take(9)
    } else {
        fraction(t) + Seq::new((9 - fraction(t).len()) as nat, |i: int| '0')
    }
}

/// The subsecond part `t` denotes, in nanoseconds: its fraction, plus one
/// second for a leap second.
pub open spec fn denoted_nanos(t: Seq<char>) -> int {
    (if text_second(t) == 60 {
        1_000_000_000int
    } else {
        0int
    }) + decimal_value(padded_fraction(t))
}

/// A fraction of at most nine digits is less than a second.
pub proof fn lemma_padded_fraction_bounds(t: Seq<char>)
    requires
        rfc3339_layout(t),
    ensures
        0 <= decimal_value(padded_fraction(t)) < 1_000_000_000,
{
    let p = padded_fraction(t);
    let k = fraction(t).len();
    assert(p.len() == 9);
    assert forall|i: int| 0 <= i < 9 implies is_digit(#[trigger] p[i]) by {
        if i < k {
            assert(p[i] == t[20 + i]);
        }
    }
    lemma_digits_below(p);
    reveal_with_fuel(pow10, 10);
}

/// A string of `n` digits spells a number below `10^n`.
proof fn lemma_digits_below(s: Seq<char>)
    requires
        forall|i: int| 0 <= i < s.len() ==> is_digit(#[trigger] s[i]),
    ensures
        0 <= decimal_value(s) < pow10(s.len()),
    decreases s.len(),
{
    if s.len() > 0 {
        let r = s.drop_last();
        assert forall|i: int| 0 <= i < r.len() implies is_digit(#[trigger] r[i]) by {
            assert(r[i] == s[i]);
        }
        lemma_digits_below(r);
        assert(is_digit(s[s.len() - 1]));
        let a = decimal_value(r);
        let p = pow10(r.len());
        let c = digit_value(s.last());
        assert(a * 10 + c < pow10(s.len())) by (nonlinear_arith)
            requires
                0 <= a < p,
                0 <= c <= 9,
                pow10(s.len()) == 10 * p,
        ;
        assert(a * 10 + c >= 0) by (nonlinear_arith)
            requires
                0 <= a,
                0 <= c,
        ;
    }
}

// ── Reading ─────────────────────────────────────────────────────────────────

fn is_digit_exec(c: char) -> (b: bool)
    ensures
        b == is_digit(c),
{
    '0' <= c && c <= '9'
}

fn digit_exec(c: char) -> (d: i64)
    requires
        is_digit(c),
    ensures
        d == digit_value(c),
        0 <= d <= 9,
{
    (c as u32 - '0' as u32) as i64
}

/// The characters of `text`.
fn chars_of(text: &str) -> (v: Vec<char>)
    ensures
        v@ == text@,
{
    let n = text.unicode_len();
    let mut v: Vec<char> = Vec::new();
    for i in 0..n
        invariant
            n == text@.len(),
            v@ == text@.subrange(0, i as int),
    {
        v.push(text.get_char(i));
        assert(v@ =~= text@.subrange(0, i + 1));
    }
    assert(v@ =~= text@);
    v
}

fn digits_exec(t: &Vec<char>, lo: usize, hi: usize) -> (b: bool)
    requires
        lo <= hi <= t.len(),
    ensures
        b == digits_in(t@, lo as int, hi as int),
{
    let mut i = lo;
    while i < hi
        invariant
            lo <= i <= hi,
            hi <= t.len(),
            digits_in(t@, lo as int, i as int),
        decreases hi - i,
    {
        if !is_digit_exec(t[i]) {
            return false;
        }
        i = i + 1;
    }
    true
}

fn two_digits_exec(t: &Vec<char>, i: usize) -> (v: i64)
    requires
        i + 2 <= t.len(),
        digits_in(t@, i as int, i + 2),
    ensures
        v == two_digits(t@, i as int),
        0 <= v <= 99,
{
    assert(is_digit(t@[i as int]) && is_digit(t@[i + 1]));
    10 * digit_exec(t[i]) + digit_exec(t[i + 1])
}

proof fn lemma_decimal_push(s: Seq<char>, c: char)
    ensures
        decimal_value(s.push(c)) == decimal_value(s) * 10 + digit_value(c),
{
    assert(s.push(c).drop_last() =~= s);
}

/// The fraction of a text in layout, as nanoseconds.
fn fraction_nanos_exec(t: &Vec<char>, e: usize) -> (v: i64)
    requires
        e == offset_start(t@),
        e == 19 || (21 <= e && t@[19] == '.' && digits_in(t@, 20, e as int)),
        e <= t.len(),
    ensures
        v == decimal_value(padded_fraction(t@)),
        0 <= v < 1_000_000_000,
{
    let ghost p = padded_fraction(t@);
    let k: usize = if e > 19 {
        e - 20
    } else {
        0
    };
    assert(fraction(t@).len() == k);
    assert(p.len() == 9);
    let mut v: i64 = 0;
    let mut i: usize = 0;
    while i < 9
        invariant
            i <= 9,
            k == fraction(t@).len(),
            p == padded_fraction(t@),
            p.len() == 9,
            e == offset_start(t@),
            e <= t.len(),
            k > 0 ==> e == k + 20 && digits_in(t@, 20, e as int),
            v == decimal_value(p.subrange(0, i as int)),
            0 <= v < 1_000_000_000,
            v < (if i == 0 { 1int } else if i == 1 { 10int } else if i == 2 { 100int } else if i == 3 { 1000int } else if i == 4 { 10000int } else if i == 5 { 100000int } else if i == 6 { 1000000int } else if i == 7 { 10000000int } else if i == 8 { 100000000int } else { 1000000000int }),
        decreases 9 - i,
    {
        let d: i64 = if i < k {
            assert(t@[20 + i as int] == p[i as int]);
            assert(is_digit(t@[20 + i as int]));
            digit_exec(t[20 + i])
        } else {
            assert(p[i as int] == '0');
            0
        };
        assert(d == digit_value(p[i as int]));
        proof {
            lemma_decimal_push(p.subrange(0, i as int), p[i as int]);
            assert(p.subrange(0, i as int).push(p[i as int]) =~= p.subrange(0, i + 1));
        }
        v = v * 10 + d;
        i = i + 1;
    }
    assert(p.subrange(0, 9) =~= p);
    v
}

/// Reads an RFC 3339 date-time in the layout `rfc3339_layout` describes and
/// returns the instant it denotes (Unix seconds, nanoseconds); `None` for
/// any other text.
#[verifier::rlimit(60)]
pub fn read_rfc3339(text: &str) -> (r: Option<(i64, u32)>)
    ensures
        r is Some <==> rfc3339_layout(text@),
        r matches Some(q) ==> q.0 == denoted_secs(text@) && q.1 == denoted_nanos(text@),
{
    let t = chars_of(text);
    let n = t.len();
    if n < 20 {
        return None;
    }
    let last = t[n - 1];
    let olen: usize = if last == 'Z' || last == 'z' {
        1
    } else {
        6
    };
    if n < 19 + olen {
        return None;
    }
    let e: usize = n - olen;
    assert(e == offset_start(t@));
    if !(digits_exec(&t, 0, 4) && t[4] == '-' && digits_exec(&t, 5, 7) && t[7] == '-'
        && digits_exec(&t, 8, 10)) {
        return None;
    }
    if !(t[10] == 'T' || t[10] == 't' || t[10] == ' ') {
        return None;
    }
    if !(digits_exec(&t, 11, 13) && t[13] == ':' && digits_exec(&t, 14, 16) && t[16] == ':'
        && digits_exec(&t, 17, 19)) {
        return None;
    }
    if !(e == 19 || (21 <= e && t[19] == '.' && digits_exec(&t, 20, e))) {
        return None;
    }
    let mut offset: i64 = 0;
    if olen == 6 {
        if !(n >= 25 && (t[e] == '+' || t[e] == '-' || t[e] == '\u{2212}') && digits_exec(&t, e + 1, e + 3) && t[e + 3]
            == ':' && digits_exec(&t, e + 4, e + 6)) {
            return None;
        }
        let oh = two_digits_exec(&t, e + 1);
        let om = two_digits_exec(&t, e + 4);
        if !(oh <= 23 && om <= 59) {
            return None;
        }
        offset = if t[e] == '-' || t[e] == '\u{2212}' {
            -(oh * 3600 + om * 60)
        } else {
            oh * 3600 + om * 60
        };
    }
    assert(offset == offset_seconds(t@));
    let year = 100 * two_digits_exec(&t, 0) + two_digits_exec(&t, 2);
    let month = two_digits_exec(&t, 5);
    let day = two_digits_exec(&t, 8);
    let hour = two_digits_exec(&t, 11);
    let minute = two_digits_exec(&t, 14);
    let second = two_digits_exec(&t, 17);
    if !(1 <= month && month <= 12) {
        return None;
    }
    let mlen: i64 = if month == 2 {
        if (year % 4 == 0 && year % 100 != 0) || year % 400 == 0 {
            29
        } else {
            28
        }
    } else if month == 4 || month == 6 || month == 9 || month == 11 {
        30
    } else {
        31
    };
    if !(1 <= day && day <= mlen && hour <= 23 && minute <= 59 && second <= 60) {
        return None;
    }
    assert(rfc3339_layout(t@));
    let days = days_from_civil_exec(year, month, day);
    proof {
        lemma_year_start_bounds(year as int);
        lemma_month_start_bounds(year as int, month as int);
    }
    let sec_of_minute: i64 = if second == 60 {
        59
    } else {
        second
    };
    let secs: i64 = days * 86400 + hour * 3600 + minute * 60 + sec_of_minute - offset;
    let frac = fraction_nanos_exec(&t, e);
    let nanos: i64 = if second == 60 {
        1_000_000_000 + frac
    } else {
        frac
    };
    Some((secs, nanos as u32))
}

// ── Writing ─────────────────────────────────────────────────────────────────

/// The character of the digit `d` (0 to 9).
pub open spec fn digit_char(d: int) -> char {
    ('0' as int + d) as char
}

proof fn lemma_digit_char(d: int)
    requires
        0 <= d <= 9,
    ensures
        is_digit(digit_char(d)),
        digit_value(digit_char(d)) == d,
{
}

fn push_digit(out: &mut String, d: i64)
    requires
        0 <= d <= 9,
    ensures
        final(out)@ == old(out)@.push(digit_char(d as int)),
{
    proof {
        reveal_strlit("0");
        reveal_strlit("1");
        reveal_strlit("2");
        reveal_strlit("3");
        reveal_strlit("4");
        reveal_strlit("5");
        reveal_strlit("6");
        reveal_strlit("7");
        reveal_strlit("8");
        reveal_strlit("9");
    }
    let s = if d == 0 {
        "0"
    } else if d == 1 {
        "1"
    } else if d == 2 {
        "2"
    } else if d == 3 {
        "3"
    } else if d == 4 {
        "4"
    } else if d == 5 {
        "5"
    } else if d == 6 {
        "6"
    } else if d == 7 {
        "7"
    } else if d == 8 {
        "8"
    } else {
        "9"
    };
    assert(s@ =~= seq![digit_char(d as int)]);
    out.append(s);
}

/// The `k` decimal digits of `q`, most significant first.
pub open spec fn digits_of(q: int, k: nat) -> Seq<char>
    decreases k,
{
    if k == 0 {
        Seq::empty()
    } else {
        digits_of(q / 10, (k - 1) as nat).push(digit_char(q % 10))
    }
}

pub open spec fn pow10(k: nat) -> int
    decreases k,
{
    if k == 0 {
        1
    } else {
        10 * pow10((k - 1) as nat)
    }
}

/// The digits of a number below `10^k` spell it back.
proof fn lemma_digits_of(q: int, k: nat)
    requires
        0 <= q < pow10(k),
    ensures
        digits_of(q, k).len() == k,
        decimal_value(digits_of(q, k)) == q,
        forall|i: int| 0 <= i < k ==> is_digit(#[trigger] digits_of(q, k)[i]),
    decreases k,
{
    if k > 0 {
        let p = pow10((k - 1) as nat);
        assert(q / 10 < p) by (nonlinear_arith)
            requires
                0 <= q < 10 * p,
        ;
        lemma_digits_of(q / 10, (k - 1) as nat);
        lemma_decimal_push(digits_of(q / 10, (k - 1) as nat), digit_char(q % 10));
        lemma_digit_char(q % 10);
    }
}

/// Trailing zeros multiply a number by ten each.
proof fn lemma_decimal_zeros(s: Seq<char>, n: nat)
    ensures
        decimal_value(s + Seq::new(n, |i: int| '0')) == decimal_value(s) * pow10(n),
    decreases n,
{
    if n > 0 {
        lemma_decimal_zeros(s, (n - 1) as nat);
        let z = Seq::new((n - 1) as nat, |i: int| '0');
        lemma_decimal_push(s + z, '0');
        assert((s + z).push('0') =~= s + Seq::new(n, |i: int| '0'));
        assert(decimal_value(s) * pow10((n - 1) as nat) * 10 == decimal_value(s) * pow10(n))
            by (nonlinear_arith)
            requires
                pow10(n) == 10 * pow10((n - 1) as nat),
        ;
    }
}

/// Writes the `k` decimal digits of `q`.
fn push_digits(out: &mut String, q: i64, k: u32)
    requires
        0 <= q,
        k <= 9,
    ensures
        final(out)@ == old(out)@ + digits_of(q as int, k as nat),
    decreases k,
{
    if k > 0 {
        push_digits(out, q / 10, k - 1);
        push_digit(out, q % 10);
    } else {
        assert(old(out)@ + digits_of(q as int, 0) =~= old(out)@);
    }
}

/// The number of fraction digits chrono writes for a subsecond part of
/// `frac` nanoseconds: none for 0, else the fewest of 3, 6 or 9 that show
/// it exactly.
pub open spec fn fraction_digits_written(frac: int) -> int {
    if frac == 0 {
        0
    } else if frac % 1_000_000 == 0 {
        3
    } else if frac % 1000 == 0 {
        6
    } else {
        9
    }
}

/// `t` is the RFC 3339 text of the instant (`secs`, `nanos`) written in UTC:
/// in layout with `T`, the offset `+00:00`, the fewest fraction digits of
/// 3, 6 or 9, and date and time fields that denote the instant.
pub open spec fn utc_text_of(t: Seq<char>, secs: int, nanos: int) -> bool {
    &&& rfc3339_layout(t)
    &&& t[10] == 'T'
    &&& offset_len(t) == 6 && t[offset_start(t)] == '+' && offset_seconds(t) == 0
    &&& fraction(t).len() == fraction_digits_written(
        if nanos >= 1_000_000_000 {
            nanos - 1_000_000_000
        } else {
            nanos
        },
    )
    &&& denoted_secs(t) == secs
    &&& denoted_nanos(t) == nanos
}

/// The first nineteen characters of the UTC text of a date and time:
/// `YYYY-MM-DDThh:mm:ss`.
pub open spec fn utc_head(y: int, mo: int, d: int, h: int, mi: int, s: int) -> Seq<char> {
    seq![
        digit_char((y / 100) / 10),
        digit_char((y / 100) % 10),
        digit_char((y % 100) / 10),
        digit_char((y % 100) % 10),
        '-',
        digit_char(mo / 10),
        digit_char(mo % 10),
        '-',
        digit_char(d / 10),
        digit_char(d % 10),
        'T',
        digit_char(h / 10),
        digit_char(h % 10),
        ':',
        digit_char(mi / 10),
        digit_char(mi % 10),
        ':',
        digit_char(s / 10),
        digit_char(s % 10),
    ]
}

fn push_two(out: &mut String, v: i64)
    requires
        0 <= v <= 99,
    ensures
        final(out)@ == old(out)@.push(digit_char(v as int / 10)).push(digit_char(v as int % 10)),
{
    push_digit(out, v / 10);
    push_digit(out, v % 10);
}

/// The calendar date, time of day and leap flag of a four-digit-year
/// instant: `(year, month, day, seconds of the day)`.
fn civil_from_secs(secs: i64) -> (r: (i64, i64, i64, i64))
    requires
        four_digit_year(secs as int),
    ensures
        0 <= r.0 <= 9999 ==> valid_date(r.0 as int, r.1 as int, r.2 as int) && 0 <= r.3 < 86400
            && days_from_civil(r.0 as int, r.1 as int, r.2 as int) * 86400 + r.3 == secs,
{
    let u: i64 = secs - FOUR_DIGIT_YEARS_START;
    let days: i64 = u / 86400 - 719528;
    let tod: i64 = u % 86400;
    assert(days * 86400 + tod == secs);
    let mut y: i64 = 1970;
    let mut start: i64 = 0;
    proof {
        lemma_year_start_bounds(1970);
    }
    while days < start
        invariant
            start == days_before_year(y as int),
            -2 <= y <= 1970,
            -719528 <= days <= 2932897,
            y <= 1970 ==> 366 * (y - 1970) <= start <= 365 * (y - 1970),
        decreases y + 3,
    {
        proof {
            lemma_next_year(y - 1);
            lemma_year_start_bounds(y - 1);
        }
        let prev: i64 = y - 1;
        let len: i64 = if (prev % 4 == 0 && prev % 100 != 0) || prev % 400 == 0 {
            366
        } else {
            365
        };
        start = start - len;
        y = prev;
    }
    let mut len: i64 = if (y % 4 == 0 && y % 100 != 0) || y % 400 == 0 {
        366
    } else {
        365
    };
    proof {
        lemma_year_start_bounds(y as int);
    }
    while days >= start + len
        invariant
            start == days_before_year(y as int),
            len == year_len(y as int),
            start <= days,
            -2 <= y,
            -719528 <= days <= 2932897,
            y >= 1970 ==> 365 * (y - 1970) <= start <= 366 * (y - 1970),
            y <= 1970 ==> 366 * (y - 1970) <= start <= 365 * (y - 1970),
        decreases days - start,
    {
        proof {
            lemma_next_year(y as int);
            lemma_year_start_bounds(y + 1);
        }
        start = start + len;
        y = y + 1;
        len = if (y % 4 == 0 && y % 100 != 0) || y % 400 == 0 {
            366
        } else {
            365
        };
    }
    if y < 0 || y > 9999 {
        return (y, 1, 1, tod);
    }
    let rem: i64 = days - start;
    let mut m: i64 = 1;
    let mut before: i64 = 0;
    proof {
        lemma_months_fill_year(y as int);
    }
    let mut mlen: i64 = 31;
    while m < 12 && rem >= before + mlen
        invariant
            1 <= m <= 12,
            before == days_before_month(y as int, m as int),
            mlen == month_len(y as int, m as int),
            0 <= before <= rem,
            rem < year_len(y as int),
            0 <= y <= 9999,
            days_before_month(y as int, 12) + month_len(y as int, 12) == year_len(y as int),
        decreases 12 - m,
    {
        before = before + mlen;
        m = m + 1;
        mlen = if m == 2 {
            if (y % 4 == 0 && y % 100 != 0) || y % 400 == 0 {
                29
            } else {
                28
            }
        } else if m == 4 || m == 6 || m == 9 || m == 11 {
            30
        } else {
            31
        };
    }
    let d: i64 = rem - before + 1;
    (y, m, d, tod)
}

/// The digits of the fraction chrono writes for `frac` nanoseconds, and
/// their count.
pub open spec fn written_fraction(frac: int) -> Seq<char> {
    let k = fraction_digits_written(frac);
    if k == 0 {
        Seq::empty()
    } else if k == 3 {
        digits_of(frac / 1_000_000, 3)
    } else if k == 6 {
        digits_of(frac / 1000, 6)
    } else {
        digits_of(frac, 9)
    }
}

proof fn lemma_written_fraction(frac: int)
    requires
        0 <= frac < 1_000_000_000,
    ensures
        written_fraction(frac).len() == fraction_digits_written(frac),
        forall|i: int| 0 <= i < written_fraction(frac).len() ==> is_digit(#[trigger] written_fraction(frac)[i]),
        decimal_value(written_fraction(frac) + Seq::new(
            (9 - written_fraction(frac).len()) as nat,
            |i: int| '0',
        )) == frac,
{
    reveal_with_fuel(pow10, 10);
    let k = fraction_digits_written(frac);
    let w = written_fraction(frac);
    if k == 0 {
        assert(decimal_value(Seq::<char>::empty()) == 0);
        lemma_decimal_zeros(Seq::empty(), 9);
        assert(Seq::<char>::empty() + Seq::new(9, |i: int| '0') =~= w + Seq::new(
            (9 - w.len()) as nat,
            |i: int| '0',
        ));
    } else if k == 3 {
        assert(pow10(3) == 1000 && pow10(6) == 1_000_000);
        lemma_digits_of(frac / 1_000_000, 3);
        lemma_decimal_zeros(w, 6);
        assert(w.len() == 3);
        assert(decimal_value(w) == frac / 1_000_000);
        assert((frac / 1_000_000) * 1_000_000 == frac);
    } else if k == 6 {
        assert(pow10(3) == 1000 && pow10(6) == 1_000_000);
        lemma_digits_of(frac / 1000, 6);
        lemma_decimal_zeros(w, 3);
        assert(w.len() == 6);
        assert(decimal_value(w) == frac / 1000);
        assert((frac / 1000) * 1000 == frac);
    } else {
        assert(pow10(9) == 1_000_000_000);
        lemma_digits_of(frac, 9);
        lemma_decimal_zeros(w, 0);
        assert(w + Seq::new(0, |i: int| '0') =~= w);
    }
}

fn push_fraction(out: &mut String, frac: i64)
    requires
        0 <= frac < 1_000_000_000,
    ensures
        final(out)@ == old(out)@ + (if frac == 0 {
            Seq::empty()
        } else {
            seq!['.'] + written_fraction(frac as int)
        }),
{
    proof {
        reveal_strlit(".");
    }
    if frac == 0 {
        assert(old(out)@ + Seq::<char>::empty() =~= old(out)@);
    } else {
        out.append(".");
        let ghost mid = out@;
        if frac % 1_000_000 == 0 {
            push_digits(out, frac / 1_000_000, 3);
        } else if frac % 1000 == 0 {
            push_digits(out, frac / 1000, 6);
        } else {
            push_digits(out, frac, 9);
        }
        assert(out@ =~= old(out)@ + (seq!['.'] + written_fraction(frac as int)));
    }
}

/// The zeros that pad a fraction to nine digits.
pub open spec fn zeros(n: int) -> Seq<char> {
    Seq::new(n as nat, |i: int| '0')
}

/// A head, a fraction and the offset `+00:00` assembled as the writer does
/// form the UTC text of the instant the fields denote.
proof fn lemma_assembled_utc_text(
    y: int,
    mo: int,
    d: int,
    h: int,
    mi: int,
    s: int,
    frac: int,
    secs: int,
    nanos: int,
    t: Seq<char>,
)
    requires
        0 <= y <= 9999,
        valid_date(y, mo, d),
        0 <= h <= 23,
        0 <= mi <= 59,
        0 <= s <= 60,
        0 <= frac < 1_000_000_000,
        nanos == (if s == 60 {
            1_000_000_000int
        } else {
            0int
        }) + frac,
        days_from_civil(y, mo, d) * 86400 + h * 3600 + mi * 60 + (if s == 60 {
            59
        } else {
            s
        }) == secs,
        t == utc_head(y, mo, d, h, mi, s) + (if frac == 0 {
            Seq::empty()
        } else {
            seq!['.'] + written_fraction(frac)
        }) + seq!['+', '0', '0', ':', '0', '0'],
    ensures
        utc_text_of(t, secs, nanos),
{
    let head = utc_head(y, mo, d, h, mi, s);
    let f = if frac == 0 {
        Seq::<char>::empty()
    } else {
        seq!['.'] + written_fraction(frac)
    };
    let tail = seq!['+', '0', '0', ':', '0', '0'];
    lemma_written_fraction(frac);
    let w = written_fraction(frac);
    assert(f.len() == 0 || f.len() == 4 || f.len() == 7 || f.len() == 10);
    assert(t.len() == 19 + f.len() + 6);
    assert(t.last() == '0');
    assert(offset_len(t) == 6);
    let e = offset_start(t);
    assert(e == 19 + f.len());
    lemma_digit_char((y / 100) / 10);
    lemma_digit_char((y / 100) % 10);
    lemma_digit_char((y % 100) / 10);
    lemma_digit_char((y % 100) % 10);
    lemma_digit_char(mo / 10);
    lemma_digit_char(mo % 10);
    lemma_digit_char(d / 10);
    lemma_digit_char(d % 10);
    lemma_digit_char(h / 10);
    lemma_digit_char(h % 10);
    lemma_digit_char(mi / 10);
    lemma_digit_char(mi % 10);
    lemma_digit_char(s / 10);
    lemma_digit_char(s % 10);
    assert forall|k: int| 0 <= k < 19 implies t[k] == head[k] by {}
    assert forall|k: int| 0 <= k < 6 implies t[e + k] == tail[k] by {}
    assert(digits_in(t, 0, 4));
    assert(digits_in(t, 5, 7));
    assert(digits_in(t, 8, 10));
    assert(digits_in(t, 11, 13));
    assert(digits_in(t, 14, 16));
    assert(digits_in(t, 17, 19));
    assert(digits_in(t, e + 1, e + 3));
    assert(digits_in(t, e + 4, e + 6));
    assert(text_year(t) == y);
    assert(text_month(t) == mo);
    assert(text_day(t) == d);
    assert(text_hour(t) == h);
    assert(text_minute(t) == mi);
    assert(text_second(t) == s);
    assert(offset_seconds(t) == 0);
    if frac == 0 {
        assert(fraction(t) =~= Seq::<char>::empty());
        assert(padded_fraction(t) =~= w + zeros(9 - w.len()));
    } else {
        assert(t[19] == '.');
        assert(fraction(t) =~= w);
        assert(digits_in(t, 20, e));
        assert(padded_fraction(t) =~= w + zeros(9 - w.len()));
    }
    assert(decimal_value(padded_fraction(t)) == frac);
    assert(rfc3339_layout(t));
}

/// Writes the RFC 3339 text of a valid instant of the years 0 to 9999 in
/// UTC: `YYYY-MM-DDThh:mm:ss`, the fraction in the fewest of 3, 6 or 9
/// digits (none when it is zero), a leap second as second 60, and `+00:00`.
pub fn write_utc_text(secs: i64, nanos: u32) -> (r: Option<String>)
    requires
        valid_instant(secs as int, nanos as int),
        four_digit_year(secs as int),
    ensures
        r matches Some(t) ==> utc_text_of(t@, secs as int, nanos as int),
{
    let (y, mo, d, tod) = civil_from_secs(secs);
    if y < 0 || y > 9999 {
        return None;
    }
    let h: i64 = tod / 3600;
    let mi: i64 = (tod % 3600) / 60;
    let s0: i64 = tod % 60;
    assert(h * 3600 + mi * 60 + s0 == tod);
    let leap = nanos >= 1_000_000_000;
    if leap {
        assert(s0 == 59);
    }
    let s: i64 = if leap {
        60
    } else {
        s0
    };
    let frac: i64 = if leap {
        nanos as i64 - 1_000_000_000
    } else {
        nanos as i64
    };
    proof {
        reveal_strlit("-");
        reveal_strlit("T");
        reveal_strlit(":");
        reveal_strlit("+00:00");
    }
    let mut out = String::new();
    push_two(&mut out, y / 100);
    push_two(&mut out, y % 100);
    out.append("-");
    push_two(&mut out, mo);
    out.append("-");
    push_two(&mut out, d);
    out.append("T");
    push_two(&mut out, h);
    out.append(":");
    push_two(&mut out, mi);
    out.append(":");
    push_two(&mut out, s);
    assert(out@ =~= utc_head(y as int, mo as int, d as int, h as int, mi as int, s as int));
    let ghost head = out@;
    push_fraction(&mut out, frac);
    let ghost with_fraction = out@;
    out.append("+00:00");
    assert(out@ =~= with_fraction + seq!['+', '0', '0', ':', '0', '0']);
    proof {
        lemma_assembled_utc_text(
            y as int,
            mo as int,
            d as int,
            h as int,
            mi as int,
            s as int,
            frac as int,
            secs as int,
            nanos as int,
            out@,
        );
    }
    Some(out)
}

/// Decides whether `text` is the UTC text of the instant (`secs`, `nanos`)
/// in the form `utc_text_of` describes.
pub fn is_utc_text(text: &str, secs: i64, nanos: u32) -> (b: bool)
    ensures
        b == utc_text_of(text@, secs as int, nanos as int),
{
    match read_rfc3339(text) {
        None => false,
        Some(q) => {
            if q.0 != secs || q.1 != nanos {
                return false;
            }
            let t = chars_of(text);
            let n = t.len();
            if t[n - 1] == 'Z' || t[n - 1] == 'z' {
                return false;
            }
            let e = n - 6;
            if !(t[10] == 'T' && t[e] == '+' && t[e + 1] == '0' && t[e + 2] == '0' && t[e + 4] == '0'
                && t[e + 5] == '0') {
                return false;
            }
            let frac: u32 = if nanos >= 1_000_000_000 {
                nanos - 1_000_000_000
            } else {
                nanos
            };
            let k: usize = if frac == 0 {
                0
            } else if frac % 1_000_000 == 0 {
                3
            } else if frac % 1000 == 0 {
                6
            } else {
                9
            };
            let written: usize = if e > 19 {
                e - 20
            } else {
                0
            };
            assert(fraction(t@).len() == written);
            written == k
        },
    }
}

} // verus!

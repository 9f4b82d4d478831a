//! Date ranges of the statistics queries, and the clock the library reads.

use vstd::prelude::*;
use crate::keys::opt_str_view;
use crate::text::{push_str, str_equal, to_chars};

verus! {

// ---------------------------------------------------------------- clock

/// Every character is a decimal digit.
pub open spec fn digits_only(s: Seq<char>) -> bool {
    forall|i: int| 0 <= i < s.len() ==> is_digit(#[trigger] s[i])
}

/// How chrono writes a year with `%Y`: four digits for years 0 to 9999, otherwise a
/// sign (`+` or `-`) and at least four digits.
pub open spec fn year_text(s: Seq<char>) -> bool {
    ||| s.len() == 4 && digits_only(s)
    ||| s.len() >= 5 && (s[0] == '+' || s[0] == '-') && digits_only(s.drop_first())
}

/// Two decimal digits whose value lies in `lo..=hi`.
pub open spec fn two_digits_in(s: Seq<char>, lo: int, hi: int) -> bool {
    &&& s.len() == 2
    &&& is_digit(s[0]) && is_digit(s[1])
    &&& lo <= 10 * digit_value(s[0]) + digit_value(s[1]) <= hi
}

/// The shape of `%Y-%m-%d`: a year, `-`, the month `01`..`12`, `-`, the day `01`..`31`.
pub open spec fn date_shape(s: Seq<char>) -> bool {
    let n = s.len() as int;
    &&& n >= 10
    &&& year_text(s.take(n - 6))
    &&& s[n - 6] == '-'
    &&& two_digits_in(s.subrange(n - 5, n - 3), 1, 12)
    &&& s[n - 3] == '-'
    &&& two_digits_in(s.subrange(n - 2, n), 1, 31)
}

/// The shape of `%Y-%m-%d %H:%M:%S`: a date, a space, the hour `00`..`23`, `:`, the
/// minute `00`..`59`, `:`, the second `00`..`60` (60 for a leap second).
pub open spec fn time_shape(s: Seq<char>) -> bool {
    let n = s.len() as int;
    &&& n >= 19
    &&& date_shape(s.take(n - 9))
    &&& s[n - 9] == ' '
    &&& two_digits_in(s.subrange(n - 8, n - 6), 0, 23)
    &&& s[n - 6] == ':'
    &&& two_digits_in(s.subrange(n - 5, n - 3), 0, 59)
    &&& s[n - 3] == ':'
    &&& two_digits_in(s.subrange(n - 2, n), 0, 60)
}

/// Calls `chrono::Local::now()` and formats it as `%Y-%m-%d %H:%M:%S`.
/// Claims the shape that chrono's formatting code gives every outcome: the year as
/// `%Y` writes it, then two-digit month, day, hour, minute and second, each within
/// its range. Which moment it is (clock and time zone) is left unstated.
#[verifier::external_body]
fn local_now_text() -> (r: String)
    ensures
        time_shape(r@),
{
    chrono::Local::now().format("%Y-%m-%d %H:%M:%S").to_string()
}

/// Calls `chrono::Local::now()` and formats it as `%Y-%m-%d`.
/// Claims the shape that chrono's formatting code gives every outcome: the year as
/// `%Y` writes it, a two-digit month 01..12 and a two-digit day 01..31. Which day it
/// is (clock and time zone) is left unstated.
#[verifier::external_body]
fn local_today_text() -> (r: String)
    ensures
        date_shape(r@),
{
    chrono::Local::now().format("%Y-%m-%d").to_string()
}

/// The local time, as `YYYY-MM-DD HH:MM:SS` (the year as `%Y` writes it).
pub fn now_text() -> (r: String)
    ensures
        time_shape(r@),
{
    local_now_text()
}

/// Today's local date, as `YYYY-MM-DD` (the year as `%Y` writes it).
pub fn today_text() -> (r: String)
    ensures
        date_shape(r@),
{
    local_today_text()
}

// ---------------------------------------------------------------- order of text

/// Lexicographic order of character sequences (by code point; for UTF-8 text this is
/// the same order as the byte-wise order of `String`).
pub open spec fn seq_lt(a: Seq<char>, b: Seq<char>) -> bool
    decreases a.len(),
{
    if a.len() == 0 {
        b.len() > 0
    } else if b.len() == 0 {
        false
    } else if a[0] < b[0] {
        true
    } else if a[0] > b[0] {
        false
    } else {
        seq_lt(a.drop_first(), b.drop_first())
    }
}

/// `seq_lt` is asymmetric.
pub proof fn seq_lt_asymmetric(a: Seq<char>, b: Seq<char>)
    ensures
        seq_lt(a, b) ==> !seq_lt(b, a),
    decreases a.len(),
{
    if a.len() > 0 && b.len() > 0 && a[0] == b[0] {
        seq_lt_asymmetric(a.drop_first(), b.drop_first());
    }
}

/// `seq_lt` is total: of two different sequences one comes first.
pub proof fn seq_lt_total(a: Seq<char>, b: Seq<char>)
    ensures
        !seq_lt(a, b) && !seq_lt(b, a) ==> a == b,
    decreases a.len(),
{
    if a.len() > 0 && b.len() > 0 && a[0] == b[0] {
        seq_lt_total(a.drop_first(), b.drop_first());
        if !seq_lt(a, b) && !seq_lt(b, a) {
            assert(a =~= seq![a[0]] + a.drop_first());
            assert(b =~= seq![b[0]] + b.drop_first());
        }
    } else if a.len() == 0 && b.len() == 0 {
        assert(a =~= b);
    }
}

/// `seq_lt` is transitive.
pub proof fn seq_lt_transitive(a: Seq<char>, b: Seq<char>, c: Seq<char>)
    requires
        seq_lt(a, b),
        seq_lt(b, c),
    ensures
        seq_lt(a, c),
    decreases a.len(),
{
    if a.len() > 0 && b.len() > 0 && c.len() > 0 && a[0] == b[0] && b[0] == c[0] {
        seq_lt_transitive(a.drop_first(), b.drop_first(), c.drop_first());
    }
}

pub fn chars_less(a: &Vec<char>, b: &Vec<char>) -> (r: bool)
    ensures
        r == seq_lt(a@, b@),
{
    let mut i: usize = 0;
    assert(a@.skip(0) =~= a@);
    assert(b@.skip(0) =~= b@);
    while i < a.len() && i < b.len()
        invariant
            i <= a@.len(),
            i <= b@.len(),
            seq_lt(a@, b@) == seq_lt(a@.skip(i as int), b@.skip(i as int)),
        decreases a@.len() - i,
    {
        assert(a@.skip(i as int)[0] == a@[i as int]);
        assert(b@.skip(i as int)[0] == b@[i as int]);
        if a[i] < b[i] {
            return true;
        }
        if a[i] > b[i] {
            return false;
        }
        assert(a@.skip(i as int).drop_first() =~= a@.skip(i + 1));
        assert(b@.skip(i as int).drop_first() =~= b@.skip(i + 1));
        i = i + 1;
    }
    a.len() < b.len()
}

// ---------------------------------------------------------------- date ranges

pub open spec fn is_digit(c: char) -> bool {
    '0' <= c <= '9'
}

pub open spec fn digit_value(c: char) -> int {
    c as int - '0' as int
}

/// A date written `YYYY-MM-DD` with a year above zero, a month 1..12 and a day 1..31.
pub open spec fn valid_date_text(s: Seq<char>) -> bool {
    &&& s.len() == 10
    &&& s[4] == '-'
    &&& s[7] == '-'
    &&& is_digit(s[0]) && is_digit(s[1]) && is_digit(s[2]) && is_digit(s[3])
    &&& is_digit(s[5]) && is_digit(s[6]) && is_digit(s[8]) && is_digit(s[9])
    &&& 1 <= 10 * digit_value(s[5]) + digit_value(s[6]) <= 12
    &&& 1 <= 10 * digit_value(s[8]) + digit_value(s[9]) <= 31
    &&& 1000 * digit_value(s[0]) + 100 * digit_value(s[1]) + 10 * digit_value(s[2])
        + digit_value(s[3]) > 0
}

fn digit(c: char) -> (r: bool)
    ensures
        r == is_digit(c),
{
    '0' <= c && c <= '9'
}

fn digit_val(c: char) -> (r: u32)
    requires
        is_digit(c),
    ensures
        r == digit_value(c),
{
    (c as u32) - ('0' as u32)
}

/// Whether `s` is a usable date: `YYYY-MM-DD` with year, month and day in range.
pub fn valid_date(s: &str) -> (r: bool)
    ensures
        r == valid_date_text(s@),
{
    let v = to_chars(s);
    if v.len() != 10 || v[4] != '-' || v[7] != '-' {
        return false;
    }
    if !(digit(v[0]) && digit(v[1]) && digit(v[2]) && digit(v[3]) && digit(v[5]) && digit(v[6])
        && digit(v[8]) && digit(v[9])) {
        return false;
    }
    let y = 1000 * digit_val(v[0]) + 100 * digit_val(v[1]) + 10 * digit_val(v[2]) + digit_val(v[3]);
    let m = 10 * digit_val(v[5]) + digit_val(v[6]);
    let d = 10 * digit_val(v[8]) + digit_val(v[9]);
    1 <= m && m <= 12 && 1 <= d && d <= 31 && y > 0
}

/// The day a bound stands for: the given date when it is usable, else today.
pub open spec fn day_or_today(bound: Option<Seq<char>>, today: Seq<char>) -> Seq<char> {
    match bound {
        Some(v) => if valid_date_text(v) { v } else { today },
        None => today,
    }
}

/// Whether a bound asks for all data.
pub open spec fn is_all(bound: Option<Seq<char>>) -> bool {
    bound == Some("all"@)
}

/// The range for `start` and `end`: the label of the first and the last day, and
/// the first and last timestamp that the queries take. `all` on either side takes
/// everything; a missing or unusable date stands for today; reversed dates are swapped.
pub open spec fn range_spec(
    start: Option<Seq<char>>,
    end: Option<Seq<char>>,
    today: Seq<char>,
) -> (Seq<char>, Seq<char>, Seq<char>, Seq<char>) {
    if is_all(start) || is_all(end) {
        ("全部"@, "全部"@, "0000-01-01 00:00:00"@, "9999-12-31 23:59:59"@)
    } else {
        let s = day_or_today(start, today);
        let e = day_or_today(end, today);
        let (a, b) = if seq_lt(e, s) { (e, s) } else { (s, e) };
        (a, b, a + " 00:00:00"@, b + " 23:59:59"@)
    }
}

pub open spec fn views4(r: (String, String, String, String)) -> (Seq<char>, Seq<char>, Seq<char>, Seq<char>) {
    (r.0@, r.1@, r.2@, r.3@)
}

fn bound_is_all(bound: Option<&str>) -> (r: bool)
    ensures
        r == is_all(opt_str_view(bound)),
{
    match bound {
        Some(v) => str_equal(v, "all"),
        None => false,
    }
}

fn day_of(bound: Option<&str>, today: &String) -> (r: String)
    ensures
        r@ == day_or_today(opt_str_view(bound), today@),
{
    match bound {
        Some(v) => if valid_date(v) { v.to_owned() } else { today.clone() },
        None => today.clone(),
    }
}

/// `range_bounds` for a given today's date.
pub fn range_bounds_on(start: Option<&str>, end: Option<&str>, today: String) -> (r: (String, String, String, String))
    ensures
        views4(r) == range_spec(opt_str_view(start), opt_str_view(end), today@),
{
    if bound_is_all(start) || bound_is_all(end) {
        return (
            "全部".to_owned(),
            "全部".to_owned(),
            "0000-01-01 00:00:00".to_owned(),
            "9999-12-31 23:59:59".to_owned(),
        );
    }
    let s = day_of(start, &today);
    let e = day_of(end, &today);
    let sv = to_chars(s.as_str());
    let ev = to_chars(e.as_str());
    let (a, b) = if chars_less(&ev, &sv) { (e, s) } else { (s, e) };
    let mut a_at = a.clone();
    push_str(&mut a_at, " 00:00:00");
    let mut b_at = b.clone();
    push_str(&mut b_at, " 23:59:59");
    (a, b, a_at, b_at)
}

/// The labels and timestamp bounds of the range from `start` to `end`, where a
/// missing or unusable date stands for today (see `range_spec`).
pub fn range_bounds(start: Option<&str>, end: Option<&str>) -> (r: (String, String, String, String))
    ensures
        exists|today: Seq<char>| date_shape(today) && views4(r) == range_spec(opt_str_view(start), opt_str_view(end), today),
{
    let today = today_text();
    let ghost t = today@;
    let r = range_bounds_on(start, end, today);
    assert(date_shape(t) && views4(r) == range_spec(opt_str_view(start), opt_str_view(end), t));
    r
}

/// The character of a decimal digit 0..9.
pub open spec fn digit_char(n: int) -> char {
    (n + 48) as char
}

/// The date `y-m-d` written `YYYY-MM-DD` (year 0..9999, month and day 0..99).
pub open spec fn date_text(y: int, m: int, d: int) -> Seq<char> {
    seq![
        digit_char(y / 1000), digit_char((y / 100) % 10), digit_char((y / 10) % 10), digit_char(y % 10),
        '-', digit_char(m / 10), digit_char(m % 10), '-', digit_char(d / 10), digit_char(d % 10),
    ]
}

/// A date written `YYYY-MM-DD` is accepted exactly when its year is above zero, its
/// month is 1 to 12 and its day is 1 to 31; the range of one accepted date, from it to
/// itself, runs from its first to its last second whatever today is.
pub proof fn calendar_dates_accepted(y: int, m: int, d: int, today: Seq<char>)
    requires
        0 <= y <= 9999,
        0 <= m <= 99,
        0 <= d <= 99,
    ensures
        valid_date_text(date_text(y, m, d)) <==> (1 <= y && 1 <= m <= 12 && 1 <= d <= 31),
        (1 <= y && 1 <= m <= 12 && 1 <= d <= 31) ==> range_spec(
            Some(date_text(y, m, d)),
            Some(date_text(y, m, d)),
            today,
        ) == (date_text(y, m, d), date_text(y, m, d), date_text(y, m, d) + " 00:00:00"@,
            date_text(y, m, d) + " 23:59:59"@),
{
    let s = date_text(y, m, d);
    assert forall|n: int| 0 <= n <= 9 implies #[trigger] is_digit(digit_char(n)) && digit_value(digit_char(n)) == n by {
    }
    assert(is_digit(s[0]) && digit_value(s[0]) == y / 1000);
    assert(is_digit(s[1]) && digit_value(s[1]) == (y / 100) % 10);
    assert(is_digit(s[2]) && digit_value(s[2]) == (y / 10) % 10);
    assert(is_digit(s[3]) && digit_value(s[3]) == y % 10);
    assert(is_digit(s[5]) && digit_value(s[5]) == m / 10);
    assert(is_digit(s[6]) && digit_value(s[6]) == m % 10);
    assert(is_digit(s[8]) && digit_value(s[8]) == d / 10);
    assert(is_digit(s[9]) && digit_value(s[9]) == d % 10);
    assert(1000 * (y / 1000) + 100 * ((y / 100) % 10) + 10 * ((y / 10) % 10) + y % 10 == y);
    assert(10 * (m / 10) + m % 10 == m);
    assert(10 * (d / 10) + d % 10 == d);
    reveal_strlit("all");
    assert(s.len() == 10);
    assert(s != "all"@);
    seq_lt_asymmetric(s, s);
}

// ---------------------------------------------------------------- laws

/// The first day of a range never comes after its last day, and the query bounds
/// are the first day at midnight and the last day at 23:59:59.
pub proof fn range_is_ordered(start: Option<Seq<char>>, end: Option<Seq<char>>, today: Seq<char>)
    requires
        !is_all(start),
        !is_all(end),
    ensures
        !seq_lt(range_spec(start, end, today).1, range_spec(start, end, today).0),
        range_spec(start, end, today).2 == range_spec(start, end, today).0 + " 00:00:00"@,
        range_spec(start, end, today).3 == range_spec(start, end, today).1 + " 23:59:59"@,
{
    let s = day_or_today(start, today);
    let e = day_or_today(end, today);
    seq_lt_asymmetric(e, s);
}

/// Giving the two ends in either order gives the same range.
pub proof fn range_is_symmetric(start: Option<Seq<char>>, end: Option<Seq<char>>, today: Seq<char>)
    ensures
        range_spec(start, end, today) == range_spec(end, start, today),
{
    let s = day_or_today(start, today);
    let e = day_or_today(end, today);
    seq_lt_asymmetric(e, s);
    seq_lt_asymmetric(s, e);
    seq_lt_total(s, e);
}

/// Asking again for the range between the two labels of a range gives the same range.
pub proof fn range_labels_round_trip(start: Option<Seq<char>>, end: Option<Seq<char>>, today: Seq<char>)
    requires
        !is_all(start),
        !is_all(end),
        today != "all"@,
    ensures
        range_spec(
            Some(range_spec(start, end, today).0),
            Some(range_spec(start, end, today).1),
            today,
        ) == range_spec(start, end, today),
{
    let s = day_or_today(start, today);
    let e = day_or_today(end, today);
    seq_lt_asymmetric(e, s);
    // Each label is a usable date or today, so it stands for itself.
    assert(day_or_today(Some(s), today) == s);
    assert(day_or_today(Some(e), today) == e);
    let r = range_spec(start, end, today);
    assert(r.0 != "all"@);
    assert(r.1 != "all"@);
}

} // verus!

//! Bucketing of per-hour and per-day query rows into the series the trend chart draws.

use vstd::prelude::*;
use std::collections::HashMap;
use crate::model::{digit_value, is_digit, seq_lt, seq_lt_total, seq_lt_transitive, chars_less};
use crate::text::{str_equal, to_chars};

verus! {

/// Decimal value of a sequence of digits.
pub open spec fn decimal_value(d: Seq<char>) -> int
    decreases d.len(),
{
    if d.len() == 0 {
        0
    } else {
        10 * decimal_value(d.drop_last()) + digit_value(d.last())
    }
}

pub open spec fn all_digits(d: Seq<char>) -> bool {
    forall|i: int| 0 <= i < d.len() ==> is_digit(#[trigger] d[i])
}

/// The hour (0..23) that an hour text stands for: the text read as a signed decimal
/// integer (an optional `+` or `-` and at least one digit), kept when it lies in 0..23.
pub open spec fn hour_slot(s: Seq<char>) -> Option<int> {
    let signed = s.len() > 0 && (s[0] == '+' || s[0] == '-');
    let neg = s.len() > 0 && s[0] == '-';
    let d = if signed { s.drop_first() } else { s };
    if d.len() == 0 || !all_digits(d) {
        None
    } else if neg {
        if decimal_value(d) == 0 { Some(0) } else { None }
    } else if decimal_value(d) < 24 {
        Some(decimal_value(d))
    } else {
        None
    }
}

proof fn decimal_value_nonneg(d: Seq<char>)
    requires
        all_digits(d),
    ensures
        decimal_value(d) >= 0,
    decreases d.len(),
{
    if d.len() > 0 {
        assert(all_digits(d.drop_last())) by {
            assert forall|i: int| 0 <= i < d.drop_last().len() implies is_digit(#[trigger] d.drop_last()[i]) by {
                assert(d.drop_last()[i] == d[i]);
            }
        }
        decimal_value_nonneg(d.drop_last());
        assert(is_digit(d[d.len() - 1]));
    }
}

/// An hour slot lies in 0..23.
pub proof fn hour_slot_in_day(s: Seq<char>)
    ensures
        hour_slot(s) matches Some(h) ==> 0 <= h < 24,
{
    let signed = s.len() > 0 && (s[0] == '+' || s[0] == '-');
    let d = if signed { s.drop_first() } else { s };
    if d.len() > 0 && all_digits(d) {
        decimal_value_nonneg(d);
    }
}

/// An hour written with two digits, as SQLite's `%H` and Rust's `{:02}` write it.
pub open spec fn two_digit_hour(h: int) -> Seq<char> {
    seq![((h / 10) + 48) as char, ((h % 10) + 48) as char]
}

/// An hour written with two digits stands for that hour.
pub proof fn two_digit_hour_slot(h: int)
    requires
        0 <= h < 24,
    ensures
        hour_slot(two_digit_hour(h)) == Some(h),
{
    let s = two_digit_hour(h);
    let one = seq![s[0]];
    assert(s.drop_last() =~= one);
    assert(one.drop_last() =~= Seq::<char>::empty());
    assert(decimal_value(one.drop_last()) == 0);
    assert(one.last() == s[0]);
    assert(decimal_value(one) == digit_value(s[0]));
    assert(decimal_value(s) == 10 * digit_value(s[0]) + digit_value(s[1]));
    assert(all_digits(s));
}

/// When every hour text of the rows is written with two digits, the value shown for
/// hour `h` is that of the last row whose text is `h` written with two digits.
pub proof fn two_digit_hours_series<T>(rows: Seq<(Seq<char>, T)>, h: int, zero: T)
    requires
        0 <= h < 24,
        forall|i: int| 0 <= i < rows.len() ==> exists|k: int| 0 <= k < 24 && #[trigger] rows[i].0 == two_digit_hour(k),
    ensures
        series_at(rows, h, zero) == last_value(rows, two_digit_hour(h), zero),
    decreases rows.len(),
{
    if rows.len() > 0 {
        let k = choose|k: int| 0 <= k < 24 && rows[rows.len() - 1].0 == two_digit_hour(k);
        two_digit_hour_slot(k);
        two_digit_hour_slot(h);
        if k != h {
            assert(two_digit_hour(k)[0] != two_digit_hour(h)[0] || two_digit_hour(k)[1] != two_digit_hour(h)[1]);
        }
        assert forall|i: int| 0 <= i < rows.drop_last().len() implies exists|k: int| 0 <= k < 24 && #[trigger] rows.drop_last()[i].0 == two_digit_hour(k) by {
            assert(rows.drop_last()[i] == rows[i]);
        }
        two_digit_hours_series(rows.drop_last(), h, zero);
    }
}

/// The hour slot of an hour text.
pub fn parse_hour(s: &str) -> (r: Option<usize>)
    ensures
        match hour_slot(s@) {
            Some(h) => r == Some(h as usize),
            None => r is None,
        },
        r matches Some(h) ==> h < 24,
{
    let v = to_chars(s);
    let n = v.len();
    if n == 0 {
        return None;
    }
    let signed = v[0] == '+' || v[0] == '-';
    let neg = v[0] == '-';
    let start: usize = if signed { 1 } else { 0 };
    let ghost d = if signed { v@.drop_first() } else { v@ };
    assert(d =~= v@.subrange(start as int, n as int));
    if start == n {
        return None;
    }
    // `acc` is the value read so far, capped at 24.
    let mut acc: u32 = 0;
    let mut i: usize = start;
    while i < n
        invariant
            start <= i <= n,
            n == v@.len(),
            v@ == s@,
            n > 0,
            start == (if v@[0] == '+' || v@[0] == '-' { 1usize } else { 0usize }),
            neg == (v@[0] == '-'),
            d == v@.subrange(start as int, n as int),
            all_digits(v@.subrange(start as int, i as int)),
            acc as int == if decimal_value(v@.subrange(start as int, i as int)) < 24 {
                decimal_value(v@.subrange(start as int, i as int))
            } else {
                24
            },
        decreases n - i,
    {
        let c = v[i];
        if !('0' <= c && c <= '9') {
            assert(d[i - start] == c);
            assert(!all_digits(d));
            return None;
        }
        let ghost prev = v@.subrange(start as int, i as int);
        let ghost next = v@.subrange(start as int, i + 1);
        assert(next.drop_last() =~= prev);
        assert(next.last() == c);
        proof {
            decimal_value_nonneg(prev);
        }
        let dv: u32 = (c as u32) - 48;
        if acc < 24 {
            let t = 10 * acc + dv;
            acc = if t < 24 { t } else { 24 };
        }
        assert(all_digits(next)) by {
            assert forall|k: int| 0 <= k < next.len() implies is_digit(#[trigger] next[k]) by {
                if k < prev.len() {
                    assert(next[k] == prev[k]);
                }
            }
        }
        i = i + 1;
    }
    assert(v@.subrange(start as int, n as int) == d);
    if neg {
        if acc == 0 { Some(0) } else { None }
    } else if acc < 24 {
        Some(acc as usize)
    } else {
        None
    }
}

/// The views of `(text, value)` rows.
pub open spec fn rows_view<T>(rows: Seq<(String, T)>) -> Seq<(Seq<char>, T)> {
    rows.map_values(|r: (String, T)| (r.0@, r.1))
}

/// The value shown for hour `h`: that of the last row whose hour text names `h`,
/// else `zero`.
pub open spec fn series_at<T>(rows: Seq<(Seq<char>, T)>, h: int, zero: T) -> T
    decreases rows.len(),
{
    if rows.len() == 0 {
        zero
    } else if hour_slot(rows.last().0) == Some(h) {
        rows.last().1
    } else {
        series_at(rows.drop_last(), h, zero)
    }
}

/// The 24 hourly values of a per-hour query: each hour takes the value of the last
/// row for it; hours without a row, and rows whose hour is not 0..23, give `zero`.
pub fn hour_series<T: Copy>(rows: &Vec<(String, T)>, zero: T) -> (r: Vec<T>)
    ensures
        r@.len() == 24,
        forall|h: int| 0 <= h < 24 ==> #[trigger] r@[h] == series_at(rows_view(rows@), h, zero),
{
    broadcast use vstd::std_specs::hash::group_hash_axioms;
    // One slot per hour of the day, each starting at `zero`.
    let mut slots: HashMap<i32, T> = HashMap::new();
    let mut k: i32 = 0;
    while k < 24
        invariant
            0 <= k <= 24,
            forall|h: i32| #[trigger] slots@.contains_key(h) <==> 0 <= h < k,
            forall|h: i32| 0 <= h < k ==> #[trigger] slots@[h] == zero,
        decreases 24 - k,
    {
        slots.insert(k, zero);
        k = k + 1;
    }
    let mut i: usize = 0;
    while i < rows.len()
        invariant
            i <= rows@.len(),
            forall|h: i32| #[trigger] slots@.contains_key(h) <==> 0 <= h < 24,
            forall|h: i32| 0 <= h < 24 ==> #[trigger] slots@[h] == series_at(
                rows_view(rows@.take(i as int)), h as int, zero),
        decreases rows@.len() - i,
    {
        let slot = parse_hour(rows[i].0.as_str());
        let ghost before = slots@;
        proof {
            hour_slot_in_day(rows@[i as int].0@);
            assert(rows_view(rows@.take(i + 1)).drop_last() =~= rows_view(rows@.take(i as int)));
            assert(rows_view(rows@.take(i + 1)).last() == (rows@[i as int].0@, rows@[i as int].1));
        }
        match slot {
            Some(h) => {
                let key = h as i32;
                if slots.contains_key(&key) {
                    slots.insert(key, rows[i].1);
                }
            },
            None => {},
        }
        i = i + 1;
        assert forall|h: i32| 0 <= h < 24 implies #[trigger] slots@[h] == series_at(
            rows_view(rows@.take(i as int)), h as int, zero) by {
            if slot == Some(h as usize) {
            } else {
                assert(slots@[h] == before[h]);
            }
        }
    }
    assert(rows@.take(i as int) =~= rows@);
    let mut out: Vec<T> = Vec::new();
    let mut h: i32 = 0;
    while h < 24
        invariant
            0 <= h <= 24,
            out@.len() == h,
            forall|j: i32| #[trigger] slots@.contains_key(j) <==> 0 <= j < 24,
            forall|j: i32| 0 <= j < 24 ==> #[trigger] slots@[j] == series_at(rows_view(rows@), j as int, zero),
            forall|j: int| 0 <= j < h ==> #[trigger] out@[j] == series_at(rows_view(rows@), j, zero),
        decreases 24 - h,
    {
        assert(slots@.contains_key(h));
        match slots.get(&h) {
            Some(v) => out.push(*v),
            None => out.push(zero),
        }
        h = h + 1;
    }
    out
}


// ---------------------------------------------------------------- per-day series

/// Whether the trend of a range is drawn by hour: a single day that is not the whole
/// history. Longer ranges are drawn by day.
pub open spec fn by_hour_spec(first: Seq<char>, last: Seq<char>) -> bool {
    first == last && first != "全部"@
}

/// Whether the trend of the range with these labels is drawn by hour.
pub fn trend_by_hour(first: &str, last: &str) -> (r: bool)
    ensures
        r == by_hour_spec(first@, last@),
{
    str_equal(first, last) && !str_equal(first, "全部")
}

/// The texts of a list of strings.
pub open spec fn texts(v: Seq<String>) -> Seq<Seq<char>> {
    v.map_values(|s: String| s@)
}

/// Every text comes before the ones after it.
pub open spec fn strictly_sorted(v: Seq<Seq<char>>) -> bool {
    forall|i: int, j: int| 0 <= i < j < v.len() ==> seq_lt(#[trigger] v[i], #[trigger] v[j])
}

/// Whether some row is for day `d`.
pub open spec fn has_day<V>(rows: Seq<(Seq<char>, V)>, d: Seq<char>) -> bool {
    exists|i: int| 0 <= i < rows.len() && #[trigger] rows[i].0 == d
}

/// Adds `d` to a sorted list of days unless it is there already.
fn insert_day(days: &mut Vec<String>, d: &String)
    requires
        strictly_sorted(texts(old(days)@)),
    ensures
        strictly_sorted(texts(final(days)@)),
        forall|x: Seq<char>| texts(final(days)@).contains(x) <==> (texts(old(days)@).contains(x) || x == d@),
{
    let dv = to_chars(d.as_str());
    let mut p: usize = 0;
    while p < days.len() && chars_less(&to_chars(days[p].as_str()), &dv)
        invariant
            p <= days@.len(),
            days@ == old(days)@,
            dv@ == d@,
            strictly_sorted(texts(days@)),
            forall|k: int| 0 <= k < p ==> seq_lt(#[trigger] texts(days@)[k], d@),
        decreases days@.len() - p,
    {
        p = p + 1;
    }
    let ghost v = texts(days@);
    if p < days.len() && str_equal(days[p].as_str(), d.as_str()) {
        assert(v[p as int] == d@);
        assert forall|x: Seq<char>| v.contains(x) <==> (v.contains(x) || x == d@) by {
            if x == d@ {
                assert(v[p as int] == x);
            }
        }
        return;
    }
    proof {
        if p < v.len() {
            seq_lt_total(v[p as int], d@);
            assert(seq_lt(d@, v[p as int]));
            assert forall|k: int| p < k < v.len() implies seq_lt(d@, #[trigger] v[k]) by {
                assert(seq_lt(v[p as int], v[k]));
                seq_lt_transitive(d@, v[p as int], v[k]);
            }
        }
    }
    days.insert(p, d.clone());
    let ghost w = texts(days@);
    assert(w =~= v.insert(p as int, d@));
    assert forall|i: int, j: int| 0 <= i < j < w.len() implies seq_lt(#[trigger] w[i], #[trigger] w[j]) by {
        if j < p {
            assert(w[i] == v[i] && w[j] == v[j]);
        } else if j == p {
            assert(w[j] == d@ && w[i] == v[i]);
        } else if i < p {
            assert(w[i] == v[i] && w[j] == v[j - 1]);
            assert(seq_lt(v[i], d@));
            seq_lt_transitive(v[i], d@, v[j - 1]);
        } else if i == p {
            assert(w[i] == d@ && w[j] == v[j - 1]);
        } else {
            assert(w[i] == v[i - 1] && w[j] == v[j - 1]);
        }
    }
    assert forall|x: Seq<char>| w.contains(x) <==> (v.contains(x) || x == d@) by {
        if w.contains(x) {
            let i = choose|i: int| 0 <= i < w.len() && w[i] == x;
            if i < p {
                assert(v[i] == x);
            } else if i > p {
                assert(v[i - 1] == x);
            }
        }
        if v.contains(x) {
            let i = choose|i: int| 0 <= i < v.len() && v[i] == x;
            if i < p {
                assert(w[i] == x);
            } else {
                assert(w[i + 1] == x);
            }
        }
        if x == d@ {
            assert(w[p as int] == x);
        }
    }
}

/// Adds the days of `rows` to a sorted list of days.
fn collect_days<V>(days: &mut Vec<String>, rows: &Vec<(String, V)>)
    requires
        strictly_sorted(texts(old(days)@)),
    ensures
        strictly_sorted(texts(final(days)@)),
        forall|x: Seq<char>| texts(final(days)@).contains(x) <==> (texts(old(days)@).contains(x)
            || has_day(rows_view(rows@), x)),
{
    let mut i: usize = 0;
    while i < rows.len()
        invariant
            i <= rows@.len(),
            strictly_sorted(texts(days@)),
            forall|x: Seq<char>| texts(days@).contains(x) <==> (texts(old(days)@).contains(x)
                || has_day(rows_view(rows@.take(i as int)), x)),
        decreases rows@.len() - i,
    {
        let ghost before = texts(days@);
        insert_day(days, &rows[i].0);
        proof {
            let r1 = rows_view(rows@.take(i + 1));
            let r0 = rows_view(rows@.take(i as int));
            assert forall|x: Seq<char>| has_day(r1, x) <==> (has_day(r0, x) || x == rows@[i as int].0@) by {
                if has_day(r1, x) {
                    let k = choose|k: int| 0 <= k < r1.len() && #[trigger] r1[k].0 == x;
                    if k < i {
                        assert(r0[k].0 == x);
                    }
                }
                if has_day(r0, x) {
                    let k = choose|k: int| 0 <= k < r0.len() && #[trigger] r0[k].0 == x;
                    assert(r1[k].0 == x);
                }
                if x == rows@[i as int].0@ {
                    assert(r1[i as int].0 == x);
                }
            }
        }
        i = i + 1;
    }
    assert(rows@.take(i as int) =~= rows@);
}

/// The value of the last row for day `d`, or `default`.
pub open spec fn last_value<V>(rows: Seq<(Seq<char>, V)>, d: Seq<char>, default: V) -> V
    decreases rows.len(),
{
    if rows.len() == 0 {
        default
    } else if rows.last().0 == d {
        rows.last().1
    } else {
        last_value(rows.drop_last(), d, default)
    }
}

fn find_last<V: Copy>(rows: &Vec<(String, V)>, d: &str, default: V) -> (r: V)
    ensures
        r == last_value(rows_view(rows@), d@, default),
{
    let mut i: usize = rows.len();
    assert(rows@.take(i as int) =~= rows@);
    while i > 0
        invariant
            i <= rows@.len(),
            last_value(rows_view(rows@), d@, default) == last_value(rows_view(rows@.take(i as int)), d@, default),
        decreases i,
    {
        let ghost t = rows_view(rows@.take(i as int));
        assert(t.last() == (rows@[i - 1].0@, rows@[i - 1].1));
        if str_equal(rows[i - 1].0.as_str(), d) {
            return rows[i - 1].1;
        }
        assert(t.drop_last() =~= rows_view(rows@.take(i - 1)));
        i = i - 1;
    }
    default
}

/// The per-day rows of the trend: every day that occurs in one of the three per-day
/// query results, in ascending order, with the last key count, the last click count
/// and the last distance given for it (0, 0 and `zero` where none is given).
pub open spec fn day_row_ok<T>(
    row: (Seq<char>, i64, i64, T),
    keys: Seq<(Seq<char>, i64)>,
    clicks: Seq<(Seq<char>, i64)>,
    dist: Seq<(Seq<char>, T)>,
    zero: T,
) -> bool {
    &&& row.1 == last_value(keys, row.0, 0i64)
    &&& row.2 == last_value(clicks, row.0, 0i64)
    &&& row.3 == last_value(dist, row.0, zero)
}

pub open spec fn day_rows_view<T>(v: Seq<(String, i64, i64, T)>) -> Seq<(Seq<char>, i64, i64, T)> {
    v.map_values(|r: (String, i64, i64, T)| (r.0@, r.1, r.2, r.3))
}

/// Merges the per-day key counts, click counts and distances into one row per day.
pub fn day_series<T: Copy>(
    keys: &Vec<(String, i64)>,
    clicks: &Vec<(String, i64)>,
    dist: &Vec<(String, T)>,
    zero: T,
) -> (r: Vec<(String, i64, i64, T)>)
    ensures
        strictly_sorted(day_rows_view(r@).map_values(|x: (Seq<char>, i64, i64, T)| x.0)),
        forall|i: int| 0 <= i < r@.len() ==> day_row_ok(#[trigger] day_rows_view(r@)[i],
            rows_view(keys@), rows_view(clicks@), rows_view(dist@), zero),
        forall|x: Seq<char>| day_rows_view(r@).map_values(|y: (Seq<char>, i64, i64, T)| y.0).contains(x)
            <==> (has_day(rows_view(keys@), x) || has_day(rows_view(clicks@), x)
                || has_day(rows_view(dist@), x)),
{
    let mut days: Vec<String> = Vec::new();
    assert(texts(days@) =~= Seq::empty());
    collect_days(&mut days, keys);
    collect_days(&mut days, clicks);
    collect_days(&mut days, dist);
    let mut out: Vec<(String, i64, i64, T)> = Vec::new();
    let mut i: usize = 0;
    while i < days.len()
        invariant
            i <= days@.len(),
            out@.len() == i,
            forall|k: int| 0 <= k < i ==> (#[trigger] day_rows_view(out@)[k]).0 == texts(days@)[k],
            forall|k: int| 0 <= k < i ==> day_row_ok(#[trigger] day_rows_view(out@)[k],
                rows_view(keys@), rows_view(clicks@), rows_view(dist@), zero),
        decreases days@.len() - i,
    {
        let d = days[i].as_str();
        let k = find_last(keys, d, 0i64);
        let c = find_last(clicks, d, 0i64);
        let m = find_last(dist, d, zero);
        let ghost before = day_rows_view(out@);
        out.push((days[i].clone(), k, c, m));
        assert(day_rows_view(out@) =~= before.push((texts(days@)[i as int], k, c, m)));
        i = i + 1;
    }
    let ghost names = day_rows_view(out@).map_values(|y: (Seq<char>, i64, i64, T)| y.0);
    assert(names =~= texts(days@));
    out
}

// ---------------------------------------------------------------- daily totals

/// `x` held to the range of `i64` (what a count beyond that range becomes).
pub open spec fn clamp_i64(x: int) -> int {
    if x > i64::MAX {
        i64::MAX as int
    } else if x < i64::MIN {
        i64::MIN as int
    } else {
        x
    }
}

/// The total of the counts given for day `d`, added in row order and held to the
/// range of `i64`.
pub open spec fn day_sum(rows: Seq<(Seq<char>, i64)>, d: Seq<char>) -> int
    decreases rows.len(),
{
    if rows.len() == 0 {
        0
    } else if rows.last().0 == d {
        clamp_i64(day_sum(rows.drop_last(), d) + rows.last().1)
    } else {
        day_sum(rows.drop_last(), d)
    }
}

/// The views of `(day, event type, count)` rows.
pub open spec fn mouse_view(rows: Seq<(String, String, i64)>) -> Seq<(Seq<char>, Seq<char>, i64)> {
    rows.map_values(|r: (String, String, i64)| (r.0@, r.1@, r.2))
}

/// The `(day, count)` rows of one event type, in order.
pub open spec fn kind_rows(rows: Seq<(Seq<char>, Seq<char>, i64)>, kind: Seq<char>) -> Seq<(Seq<char>, i64)>
    decreases rows.len(),
{
    if rows.len() == 0 {
        Seq::empty()
    } else if rows.last().1 == kind {
        kind_rows(rows.drop_last(), kind).push((rows.last().0, rows.last().2))
    } else {
        kind_rows(rows.drop_last(), kind)
    }
}

/// One row of the daily table: the day's key total, click total and wheel total, and
/// the last distance given for the day (`zero` where none is).
pub open spec fn daily_row_ok<T>(
    row: (Seq<char>, i64, i64, i64, T),
    keys: Seq<(Seq<char>, i64)>,
    mouse: Seq<(Seq<char>, Seq<char>, i64)>,
    dist: Seq<(Seq<char>, T)>,
    zero: T,
) -> bool {
    &&& row.1 == day_sum(keys, row.0)
    &&& row.2 == day_sum(kind_rows(mouse, "click"@), row.0)
    &&& row.3 == day_sum(kind_rows(mouse, "scroll"@), row.0)
    &&& row.4 == last_value(dist, row.0, zero)
}

pub open spec fn daily_view<T>(v: Seq<(String, i64, i64, i64, T)>) -> Seq<(Seq<char>, i64, i64, i64, T)> {
    v.map_values(|r: (String, i64, i64, i64, T)| (r.0@, r.1, r.2, r.3, r.4))
}

fn sum_for_day(rows: &Vec<(String, i64)>, d: &str) -> (r: i64)
    ensures
        r == day_sum(rows_view(rows@), d@),
{
    let mut acc: i64 = 0;
    let mut i: usize = 0;
    assert(rows_view(rows@.take(0)) =~= Seq::<(Seq<char>, i64)>::empty());
    while i < rows.len()
        invariant
            i <= rows@.len(),
            acc == day_sum(rows_view(rows@.take(i as int)), d@),
        decreases rows@.len() - i,
    {
        let ghost t = rows_view(rows@.take(i + 1));
        assert(t.drop_last() =~= rows_view(rows@.take(i as int)));
        assert(t.last() == (rows@[i as int].0@, rows@[i as int].1));
        if str_equal(rows[i].0.as_str(), d) {
            let sum: i128 = acc as i128 + rows[i].1 as i128;
            acc = if sum > i64::MAX as i128 {
                i64::MAX
            } else if sum < i64::MIN as i128 {
                i64::MIN
            } else {
                sum as i64
            };
        }
        i = i + 1;
    }
    assert(rows@.take(i as int) =~= rows@);
    acc
}

fn rows_of_kind(rows: &Vec<(String, String, i64)>, kind: &str) -> (r: Vec<(String, i64)>)
    ensures
        rows_view(r@) == kind_rows(mouse_view(rows@), kind@),
{
    let mut out: Vec<(String, i64)> = Vec::new();
    let mut i: usize = 0;
    assert(mouse_view(rows@.take(0)) =~= Seq::<(Seq<char>, Seq<char>, i64)>::empty());
    while i < rows.len()
        invariant
            i <= rows@.len(),
            rows_view(out@) == kind_rows(mouse_view(rows@.take(i as int)), kind@),
        decreases rows@.len() - i,
    {
        let ghost t = mouse_view(rows@.take(i + 1));
        let ghost before = rows_view(out@);
        assert(t.drop_last() =~= mouse_view(rows@.take(i as int)));
        assert(t.last() == (rows@[i as int].0@, rows@[i as int].1@, rows@[i as int].2));
        if str_equal(rows[i].1.as_str(), kind) {
            out.push((rows[i].0.clone(), rows[i].2));
            assert(rows_view(out@) =~= before.push((rows@[i as int].0@, rows@[i as int].2)));
        }
        i = i + 1;
    }
    assert(rows@.take(i as int) =~= rows@);
    out
}

/// Merges the per-day results of the key, mouse-event and distance queries into the
/// daily table: one row per day that has keys, clicks, wheel turns or a distance, in
/// ascending order, with the day's key, click and wheel totals (mouse events of other
/// types are left out) and its distance (`zero` where none is given).
pub fn daily_totals<T: Copy>(
    keys: &Vec<(String, i64)>,
    mouse: &Vec<(String, String, i64)>,
    dist: &Vec<(String, T)>,
    zero: T,
) -> (r: Vec<(String, i64, i64, i64, T)>)
    ensures
        strictly_sorted(daily_view(r@).map_values(|x: (Seq<char>, i64, i64, i64, T)| x.0)),
        forall|x: Seq<char>| daily_view(r@).map_values(|y: (Seq<char>, i64, i64, i64, T)| y.0).contains(x)
            <==> (has_day(rows_view(keys@), x)
                || has_day(kind_rows(mouse_view(mouse@), "click"@), x)
                || has_day(kind_rows(mouse_view(mouse@), "scroll"@), x)
                || has_day(rows_view(dist@), x)),
        forall|i: int| 0 <= i < r@.len() ==> daily_row_ok(#[trigger] daily_view(r@)[i],
            rows_view(keys@), mouse_view(mouse@), rows_view(dist@), zero),
{
    let clicks = rows_of_kind(mouse, "click");
    let scrolls = rows_of_kind(mouse, "scroll");
    let mut days: Vec<String> = Vec::new();
    assert(texts(days@) =~= Seq::empty());
    collect_days(&mut days, keys);
    collect_days(&mut days, &clicks);
    collect_days(&mut days, &scrolls);
    collect_days(&mut days, dist);
    let mut out: Vec<(String, i64, i64, i64, T)> = Vec::new();
    let mut i: usize = 0;
    while i < days.len()
        invariant
            i <= days@.len(),
            out@.len() == i,
            rows_view(clicks@) == kind_rows(mouse_view(mouse@), "click"@),
            rows_view(scrolls@) == kind_rows(mouse_view(mouse@), "scroll"@),
            forall|k: int| 0 <= k < i ==> (#[trigger] daily_view(out@)[k]).0 == texts(days@)[k],
            forall|k: int| 0 <= k < i ==> daily_row_ok(#[trigger] daily_view(out@)[k],
                rows_view(keys@), mouse_view(mouse@), rows_view(dist@), zero),
        decreases days@.len() - i,
    {
        let d = days[i].as_str();
        let k = sum_for_day(keys, d);
        let c = sum_for_day(&clicks, d);
        let s = sum_for_day(&scrolls, d);
        let m = find_last(dist, d, zero);
        let ghost before = daily_view(out@);
        out.push((days[i].clone(), k, c, s, m));
        assert(daily_view(out@) =~= before.push((texts(days@)[i as int], k, c, s, m)));
        i = i + 1;
    }
    let ghost names = daily_view(out@).map_values(|y: (Seq<char>, i64, i64, i64, T)| y.0);
    assert(names =~= texts(days@));
    out
}

} // verus!

//! The CSV export: a UTF-8 text with a byte-order mark, CRLF line ends, a table of
//! per-day totals and a table of per-key counts.

use vstd::prelude::*;
use crate::text::{push_char, push_str};

verus! {

/// The character of a decimal digit.
pub open spec fn decimal_digit(d: int) -> char {
    (d + 48) as char
}

/// The decimal digits of a natural number, without leading zeros.
pub open spec fn decimal(n: nat) -> Seq<char>
    decreases n,
{
    if n < 10 {
        seq![decimal_digit(n as int)]
    } else {
        decimal(n / 10).push(decimal_digit((n % 10) as int))
    }
}

/// An integer as decimal text, with a leading `-` when negative.
pub open spec fn int_text(n: int) -> Seq<char> {
    if n < 0 {
        seq!['-'] + decimal((-n) as nat)
    } else {
        decimal(n as nat)
    }
}

fn push_decimal(s: &mut String, n: u64)
    ensures
        final(s)@ == old(s)@ + decimal(n as nat),
    decreases n,
{
    if n >= 10 {
        push_decimal(s, n / 10);
    }
    let d = (n % 10) as u32;
    let c = (d + 48) as u8 as char;
    push_char(s, c);
    assert(final(s)@ =~= old(s)@ + decimal(n as nat)) by {
        if n >= 10 {
            assert(decimal(n as nat) == decimal((n / 10) as nat).push(decimal_digit((n % 10) as int)));
        }
    }
}

/// Appends an integer as decimal text.
fn push_int(s: &mut String, n: i64)
    ensures
        final(s)@ == old(s)@ + int_text(n as int),
{
    if n < 0 {
        push_char(s, '-');
        let m: i128 = 0 - (n as i128);
        push_decimal(s, m as u64);
        assert(final(s)@ =~= old(s)@ + int_text(n as int));
    } else {
        push_decimal(s, n as u64);
    }
}

/// The CRLF line end.
pub open spec fn crlf() -> Seq<char> {
    "\r\n"@
}

/// A per-day row of the export: the day, the key, click and wheel totals, and the
/// travelled distance as it is written.
pub open spec fn daily_line(row: (Seq<char>, i64, i64, i64, Seq<char>)) -> Seq<char> {
    row.0 + ","@ + int_text(row.1 as int) + ","@ + int_text(row.2 as int) + ","@
        + int_text(row.3 as int) + ","@ + row.4 + crlf()
}

/// A per-key row of the export: the key name and its count.
pub open spec fn key_line(row: (Seq<char>, i64)) -> Seq<char> {
    row.0 + ","@ + int_text(row.1 as int) + crlf()
}

pub open spec fn daily_lines(rows: Seq<(Seq<char>, i64, i64, i64, Seq<char>)>) -> Seq<char>
    decreases rows.len(),
{
    if rows.len() == 0 {
        Seq::empty()
    } else {
        daily_lines(rows.drop_last()) + daily_line(rows.last())
    }
}

pub open spec fn key_lines(rows: Seq<(Seq<char>, i64)>) -> Seq<char>
    decreases rows.len(),
{
    if rows.len() == 0 {
        Seq::empty()
    } else {
        key_lines(rows.drop_last()) + key_line(rows.last())
    }
}

pub open spec fn daily_view(v: Seq<(String, i64, i64, i64, String)>) -> Seq<(Seq<char>, i64, i64, i64, Seq<char>)> {
    v.map_values(|r: (String, i64, i64, i64, String)| (r.0@, r.1, r.2, r.3, r.4@))
}

pub open spec fn key_view(v: Seq<(String, i64)>) -> Seq<(Seq<char>, i64)> {
    v.map_values(|r: (String, i64)| (r.0@, r.1))
}

/// The whole export text.
pub open spec fn csv_spec(
    exported_at: Seq<char>,
    daily: Seq<(Seq<char>, i64, i64, i64, Seq<char>)>,
    keys: Seq<(Seq<char>, i64)>,
) -> Seq<char> {
    "\u{FEFF}"@ + "KeyCounter 数据导出"@ + crlf() + "导出时间,"@ + exported_at + crlf() + crlf()
        + "每日统计"@ + crlf() + "日期,按键总数,点击总数,滚轮总数,移动距离像素"@ + crlf()
        + daily_lines(daily) + crlf() + "按键统计"@ + crlf() + "按键,次数"@ + crlf()
        + key_lines(keys)
}

/// The CSV export: the export time, then one line per day (day, keys, clicks, wheel
/// turns, distance as written), then one line per key (name, count).
pub fn csv_text(
    exported_at: &str,
    daily: &Vec<(String, i64, i64, i64, String)>,
    keys: &Vec<(String, i64)>,
) -> (r: String)
    ensures
        r@ == csv_spec(exported_at@, daily_view(daily@), key_view(keys@)),
{
    let mut out = String::new();
    push_str(&mut out, "\u{FEFF}");
    push_str(&mut out, "KeyCounter 数据导出");
    push_str(&mut out, "\r\n");
    push_str(&mut out, "导出时间,");
    push_str(&mut out, exported_at);
    push_str(&mut out, "\r\n");
    push_str(&mut out, "\r\n");
    push_str(&mut out, "每日统计");
    push_str(&mut out, "\r\n");
    push_str(&mut out, "日期,按键总数,点击总数,滚轮总数,移动距离像素");
    push_str(&mut out, "\r\n");
    let ghost head = out@;
    let mut i: usize = 0;
    while i < daily.len()
        invariant
            i <= daily@.len(),
            out@ == head + daily_lines(daily_view(daily@).take(i as int)),
        decreases daily@.len() - i,
    {
        let row = &daily[i];
        let ghost before = out@;
        push_str(&mut out, row.0.as_str());
        push_str(&mut out, ",");
        push_int(&mut out, row.1);
        push_str(&mut out, ",");
        push_int(&mut out, row.2);
        push_str(&mut out, ",");
        push_int(&mut out, row.3);
        push_str(&mut out, ",");
        push_str(&mut out, row.4.as_str());
        push_str(&mut out, "\r\n");
        proof {
            let t = daily_view(daily@).take(i + 1);
            assert(t.drop_last() =~= daily_view(daily@).take(i as int));
            assert(t.last() == daily_view(daily@)[i as int]);
            assert(out@ =~= before + daily_line(t.last()));
        }
        i = i + 1;
    }
    assert(daily_view(daily@).take(i as int) =~= daily_view(daily@));
    push_str(&mut out, "\r\n");
    push_str(&mut out, "按键统计");
    push_str(&mut out, "\r\n");
    push_str(&mut out, "按键,次数");
    push_str(&mut out, "\r\n");
    let ghost mid = out@;
    let mut j: usize = 0;
    while j < keys.len()
        invariant
            j <= keys@.len(),
            out@ == mid + key_lines(key_view(keys@).take(j as int)),
        decreases keys@.len() - j,
    {
        let row = &keys[j];
        let ghost before = out@;
        push_str(&mut out, row.0.as_str());
        push_str(&mut out, ",");
        push_int(&mut out, row.1);
        push_str(&mut out, "\r\n");
        proof {
            let t = key_view(keys@).take(j + 1);
            assert(t.drop_last() =~= key_view(keys@).take(j as int));
            assert(t.last() == key_view(keys@)[j as int]);
            assert(out@ =~= before + key_line(t.last()));
        }
        j = j + 1;
    }
    assert(key_view(keys@).take(j as int) =~= key_view(keys@));
    assert(out@ =~= csv_spec(exported_at@, daily_view(daily@), key_view(keys@)));
    out
}

} // verus!

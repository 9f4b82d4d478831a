//! Key lookup of the keyboard heatmap.

use vstd::prelude::*;
use crate::text::str_equal;
use crate::trend::rows_view;

verus! {

/// What `str::to_uppercase` makes of a text (Unicode upper-casing).
pub uninterp spec fn unicode_upper(s: Seq<char>) -> Seq<char>;

/// Calls `str::to_uppercase`. Claims only that the result is a function of the text;
/// the Unicode case mapping itself is left unstated.
#[verifier::external_body]
fn to_uppercase(s: &str) -> (r: String)
    ensures
        r@ == unicode_upper(s@),
{
    s.to_uppercase()
}

/// The count of the last `(name, count)` pair for `name`, if any (the value a map
/// built from the pairs in order holds for it).
pub open spec fn lookup(rows: Seq<(Seq<char>, i64)>, name: Seq<char>) -> Option<i64>
    decreases rows.len(),
{
    if rows.len() == 0 {
        None
    } else if rows.last().0 == name {
        Some(rows.last().1)
    } else {
        lookup(rows.drop_last(), name)
    }
}

/// The count under `key_id`, else the count under `upper`, else 0.
pub open spec fn count_with_upper_spec(rows: Seq<(Seq<char>, i64)>, key_id: Seq<char>, upper: Seq<char>) -> i64 {
    match lookup(rows, key_id) {
        Some(v) => v,
        None => match lookup(rows, upper) {
            Some(v) => v,
            None => 0,
        },
    }
}

/// The count shown for a key of the heatmap: the count under its id, else the count
/// under its upper-cased id (letters are counted upper-case), else 0.
pub open spec fn count_for_spec(rows: Seq<(Seq<char>, i64)>, key_id: Seq<char>) -> i64 {
    count_with_upper_spec(rows, key_id, unicode_upper(key_id))
}

fn lookup_exec(counts: &Vec<(String, i64)>, name: &str) -> (r: Option<i64>)
    ensures
        r == lookup(rows_view(counts@), name@),
{
    let mut i: usize = counts.len();
    assert(counts@.take(i as int) =~= counts@);
    while i > 0
        invariant
            i <= counts@.len(),
            lookup(rows_view(counts@), name@) == lookup(rows_view(counts@.take(i as int)), name@),
        decreases i,
    {
        let ghost t = rows_view(counts@.take(i as int));
        assert(t.last() == (counts@[i - 1].0@, counts@[i - 1].1));
        if str_equal(counts[i - 1].0.as_str(), name) {
            return Some(counts[i - 1].1);
        }
        assert(t.drop_last() =~= rows_view(counts@.take(i - 1)));
        i = i - 1;
    }
    None
}

/// The count under `key_id`, else the count under `upper` (the id upper-cased), else 0.
pub fn count_with_upper(counts: &Vec<(String, i64)>, key_id: &str, upper: &str) -> (r: i64)
    ensures
        r == count_with_upper_spec(rows_view(counts@), key_id@, upper@),
{
    if let Some(v) = lookup_exec(counts, key_id) {
        return v;
    }
    match lookup_exec(counts, upper) {
        Some(v) => v,
        None => 0,
    }
}

/// The count shown for a key of the heatmap, given the per-key counts in query order.
pub fn count_for(counts: &Vec<(String, i64)>, key_id: &str) -> (r: i64)
    ensures
        r == count_for_spec(rows_view(counts@), key_id@),
{
    let upper = to_uppercase(key_id);
    count_with_upper(counts, key_id, upper.as_str())
}

} // verus!

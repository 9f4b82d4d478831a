//! The query string of a request: percent-decoding and `key=value` pairs.

use vstd::prelude::*;
use vstd::string::StringSliceAdditionalSpecFns;
use crate::keys::opt_str_view;
use crate::text::str_equal;
use vstd::utf8::{decode_utf8, is_continuation_byte, valid_utf8};

verus! {

// ---------------------------------------------------------------- lossy UTF-8

/// What `String::from_utf8_lossy` makes of a byte sequence.
pub uninterp spec fn utf8_lossy(b: Seq<u8>) -> Seq<char>;

/// Calls `String::from_utf8_lossy`. Claims that the result is a function of the bytes
/// alone and, as the documentation says, that valid UTF-8 is decoded unchanged.
/// What replaces invalid sequences is left unstated.
#[verifier::external_body]
fn string_from_utf8_lossy(b: &[u8]) -> (s: String)
    ensures
        s@ == utf8_lossy(b@),
        valid_utf8(b@) ==> s@ == decode_utf8(b@),
{
    String::from_utf8_lossy(b).into_owned()
}

// ---------------------------------------------------------------- percent-decoding

/// Value of an ASCII hexadecimal digit.
pub open spec fn hex_value(b: u8) -> Option<int> {
    if 48 <= b <= 57 {
        Some(b - 48)
    } else if 97 <= b <= 102 {
        Some(b - 87)
    } else if 65 <= b <= 70 {
        Some(b - 55)
    } else {
        None
    }
}

/// What `u8::from_str_radix(_, 16)` gives for the two-byte text `x y`: a leading `+`
/// is allowed before one digit, otherwise both bytes must be hexadecimal digits.
pub open spec fn hex_pair(x: u8, y: u8) -> Option<u8> {
    if x == 43 {
        match hex_value(y) {
            Some(v) => Some(v as u8),
            None => None,
        }
    } else {
        match (hex_value(x), hex_value(y)) {
            (Some(a), Some(c)) => Some((16 * a + c) as u8),
            _ => None,
        }
    }
}

/// Percent-decoding of bytes, front to back: `%` followed by two more bytes that
/// read as a hexadecimal number becomes that byte; every other byte stays.
pub open spec fn pct_decode(b: Seq<u8>) -> Seq<u8>
    decreases b.len(),
{
    if b.len() == 0 {
        Seq::empty()
    } else if b[0] == 37 && 2 < b.len() && hex_pair(b[1], b[2]) is Some {
        seq![hex_pair(b[1], b[2])->0] + pct_decode(b.subrange(3, b.len() as int))
    } else {
        seq![b[0]] + pct_decode(b.drop_first())
    }
}

/// No `%` is followed by two bytes that end inside a multi-byte character (where
/// cutting the two bytes after `%` out of the text would split a character).
pub open spec fn escapes_whole(b: Seq<u8>) -> bool {
    forall|i: int| 0 <= i && i + 3 < b.len() && b[i] == 37 ==> !is_continuation_byte(#[trigger] b[i + 3])
}

/// The byte of a hexadecimal digit 0..15, upper case.
pub open spec fn hex_digit_byte(d: int) -> u8 {
    if d < 10 {
        (48 + d) as u8
    } else {
        (55 + d) as u8
    }
}

/// Percent-encoding of every byte: `%` followed by two upper-case hexadecimal digits.
pub open spec fn pct_encode(b: Seq<u8>) -> Seq<u8>
    decreases b.len(),
{
    if b.len() == 0 {
        Seq::empty()
    } else {
        seq![37u8, hex_digit_byte((b[0] / 16) as int), hex_digit_byte((b[0] % 16) as int)] + pct_encode(b.drop_first())
    }
}

proof fn pct_encode_facts(b: Seq<u8>)
    ensures
        pct_decode(pct_encode(b)) == b,
        pct_encode(b).len() == 3 * b.len(),
        forall|i: int| 0 <= i < pct_encode(b).len() ==> #[trigger] pct_encode(b)[i] < 0x80,
    decreases b.len(),
{
    if b.len() > 0 {
        let e = pct_encode(b);
        let rest = pct_encode(b.drop_first());
        pct_encode_facts(b.drop_first());
        let hi = hex_digit_byte((b[0] / 16) as int);
        let lo = hex_digit_byte((b[0] % 16) as int);
        assert(hex_value(hi) == Some((b[0] / 16) as int));
        assert(hex_value(lo) == Some((b[0] % 16) as int));
        assert(hex_pair(hi, lo) == Some(b[0]));
        assert(e.subrange(3, e.len() as int) =~= rest);
        assert(seq![b[0]] + b.drop_first() =~= b);
        assert forall|i: int| 0 <= i < e.len() implies #[trigger] e[i] < 0x80 by {
            if i >= 3 {
                assert(e[i] == rest[i - 3]);
            }
        }
    }
}

/// Percent-encoding every byte and decoding again gives the bytes back; the encoded
/// text cuts no character apart, and decoding it as text gives what
/// `String::from_utf8_lossy` makes of the bytes (the bytes' own text when they are
/// valid UTF-8).
pub proof fn percent_round_trip(b: Seq<u8>)
    ensures
        pct_decode(pct_encode(b)) == b,
        escapes_whole(pct_encode(b)),
        decode_text(pct_encode(b)) == (if valid_utf8(b) { decode_utf8(b) } else { utf8_lossy(b) }),
{
    pct_encode_facts(b);
    let e = pct_encode(b);
    assert forall|i: int| 0 <= i && i + 3 < e.len() && e[i] == 37 implies !is_continuation_byte(#[trigger] e[i + 3]) by {
        assert(e[i + 3] < 0x80);
    }
}

/// Percent-encoding every byte of a text and decoding again gives the text back.
pub proof fn percent_round_trip_text(s: Seq<char>)
    ensures
        decode_text(pct_encode(vstd::utf8::encode_utf8(s))) == s,
{
    percent_round_trip(vstd::utf8::encode_utf8(s));
    vstd::utf8::encode_utf8_valid_utf8(s);
    vstd::utf8::encode_utf8_decode_utf8(s);
}

/// The text of percent-decoded bytes: their UTF-8 decoding when they are valid
/// UTF-8, otherwise what `String::from_utf8_lossy` makes of them.
pub open spec fn decode_text(b: Seq<u8>) -> Seq<char> {
    if valid_utf8(pct_decode(b)) {
        decode_utf8(pct_decode(b))
    } else {
        utf8_lossy(pct_decode(b))
    }
}

fn hex_digit_value(b: u8) -> (r: Option<u8>)
    ensures
        match hex_value(b) {
            Some(v) => r == Some(v as u8),
            None => r is None,
        },
{
    if 48 <= b && b <= 57 {
        Some(b - 48)
    } else if 97 <= b && b <= 102 {
        Some(b - 87)
    } else if 65 <= b && b <= 70 {
        Some(b - 55)
    } else {
        None
    }
}

fn parse_hex_pair(x: u8, y: u8) -> (r: Option<u8>)
    ensures
        r == hex_pair(x, y),
{
    if x == 43 {
        hex_digit_value(y)
    } else {
        match (hex_digit_value(x), hex_digit_value(y)) {
            (Some(a), Some(c)) => Some(16 * a + c),
            _ => None,
        }
    }
}

/// Percent-decodes `b[from..to]`.
fn decode_range(b: &[u8], from: usize, to: usize) -> (r: Vec<u8>)
    requires
        from <= to <= b@.len(),
    ensures
        r@ == pct_decode(b@.subrange(from as int, to as int)),
{
    let mut out: Vec<u8> = Vec::new();
    let mut i: usize = from;
    while i < to
        invariant
            from <= i <= to <= b@.len(),
            out@ + pct_decode(b@.subrange(i as int, to as int)) == pct_decode(
                b@.subrange(from as int, to as int),
            ),
        decreases to - i,
    {
        let ghost rest = b@.subrange(i as int, to as int);
        if b[i] == 37 && to - i > 2 {
            match parse_hex_pair(b[i + 1], b[i + 2]) {
                Some(v) => {
                    out.push(v);
                    assert(rest.subrange(3, rest.len() as int) =~= b@.subrange(i + 3, to as int));
                    assert(out@ + pct_decode(b@.subrange(i + 3, to as int)) =~= old_out_plus(
                        out@, rest));
                    i = i + 3;
                    continue;
                },
                None => {},
            }
        }
        out.push(b[i]);
        assert(rest.drop_first() =~= b@.subrange(i + 1, to as int));
        i = i + 1;
    }
    assert(out@ + pct_decode(b@.subrange(i as int, to as int)) =~= out@);
    out
}

spec fn old_out_plus(out: Seq<u8>, rest: Seq<u8>) -> Seq<u8> {
    out + pct_decode(rest.subrange(3, rest.len() as int))
}

/// No byte is `%`.
pub open spec fn no_percent(b: Seq<u8>) -> bool {
    forall|i: int| 0 <= i < b.len() ==> b[i] != 37u8
}

/// Bytes with no `%` in them decode to themselves.
pub proof fn plain_bytes_decode_to_themselves(b: Seq<u8>)
    requires
        no_percent(b),
    ensures
        pct_decode(b) == b,
    decreases b.len(),
{
    if b.len() > 0 {
        plain_bytes_decode_to_themselves(b.drop_first());
        assert(seq![b[0]] + b.drop_first() =~= b);
    }
}

/// Percent-decodes a URL component; bytes that do not form valid UTF-8 afterwards
/// are replaced as `String::from_utf8_lossy` does. A component with no `%` in it
/// comes back unchanged.
pub fn percent_decode(s: &str) -> (r: String)
    requires
        escapes_whole(s.spec_bytes()),
    ensures
        r@ == decode_text(s.spec_bytes()),
        no_percent(s.spec_bytes()) ==> r@ == s@,
{
    let b = s.as_bytes();
    let out = decode_range(b, 0, b.len());
    assert(b@.subrange(0, b@.len() as int) =~= b@);
    proof {
        if no_percent(s.spec_bytes()) {
            plain_bytes_decode_to_themselves(s.spec_bytes());
            vstd::utf8::encode_utf8_valid_utf8(s@);
            vstd::utf8::encode_utf8_decode_utf8(s@);
        }
    }
    string_from_utf8_lossy(out.as_slice())
}


// ---------------------------------------------------------------- key=value pairs

/// Index of the first `x` in `b`, or the length of `b` when there is none.
pub open spec fn first_or_len(b: Seq<u8>, x: u8) -> int
    decreases b.len(),
{
    if b.len() == 0 {
        0
    } else if b[0] == x {
        0
    } else {
        1 + first_or_len(b.drop_first(), x)
    }
}

pub proof fn first_or_len_bounds(b: Seq<u8>, x: u8)
    ensures
        0 <= first_or_len(b, x) <= b.len(),
        first_or_len(b, x) < b.len() ==> b[first_or_len(b, x)] == x,
        forall|k: int| 0 <= k < first_or_len(b, x) ==> b[k] != x,
    decreases b.len(),
{
    if b.len() > 0 && b[0] != x {
        first_or_len_bounds(b.drop_first(), x);
        assert forall|k: int| 0 <= k < first_or_len(b, x) implies b[k] != x by {
            if k > 0 {
                assert(b[k] == b.drop_first()[k - 1]);
            }
        }
    }
}

/// One `key=value` piece: split at the first `=` (a piece without `=` has an empty
/// value), both halves percent-decoded.
pub open spec fn param_of(p: Seq<u8>) -> (Seq<char>, Seq<char>) {
    let k = first_or_len(p, 61);
    if k < p.len() {
        (decode_text(p.take(k)), decode_text(p.skip(k + 1)))
    } else {
        (decode_text(p), decode_text(Seq::empty()))
    }
}

/// The pairs of a query string: the pieces between `&`, empty pieces skipped, in order.
pub open spec fn params_spec(b: Seq<u8>) -> Seq<(Seq<char>, Seq<char>)>
    decreases b.len(),
{
    let j = first_or_len(b, 38);
    let here = if j > 0 { seq![param_of(b.take(j))] } else { Seq::empty() };
    if 0 <= j < b.len() {
        here + params_spec(b.skip(j + 1))
    } else {
        here
    }
}

/// The views of a list of string pairs.
pub open spec fn pairs_view(v: Seq<(String, String)>) -> Seq<(Seq<char>, Seq<char>)> {
    v.map_values(|p: (String, String)| (p.0@, p.1@))
}

/// First index in `b[from..to]` holding `x`, or `to`.
fn find_byte(b: &[u8], from: usize, to: usize, x: u8) -> (r: usize)
    requires
        from <= to <= b@.len(),
    ensures
        r == from + first_or_len(b@.subrange(from as int, to as int), x),
{
    let mut i = from;
    while i < to
        invariant
            from <= i <= to <= b@.len(),
            first_or_len(b@.subrange(from as int, to as int), x) == (i - from) + first_or_len(
                b@.subrange(i as int, to as int), x),
        decreases to - i,
    {
        if b[i] == x {
            return i;
        }
        assert(b@.subrange(i as int, to as int).drop_first() =~= b@.subrange(i + 1, to as int));
        i = i + 1;
    }
    i
}

fn decode_text_range(b: &[u8], from: usize, to: usize) -> (s: String)
    requires
        from <= to <= b@.len(),
    ensures
        s@ == decode_text(b@.subrange(from as int, to as int)),
{
    let out = decode_range(b, from, to);
    string_from_utf8_lossy(out.as_slice())
}

/// Every `%` escape of one `key=value` piece stays within its key or its value.
pub open spec fn piece_ok(p: Seq<u8>) -> bool {
    let k = first_or_len(p, 61);
    if k < p.len() {
        escapes_whole(p.take(k)) && escapes_whole(p.skip(k + 1))
    } else {
        escapes_whole(p)
    }
}

/// `piece_ok` holds of every non-empty piece between `&` of a query string: the
/// condition under which each key and value can be percent-decoded.
pub open spec fn params_ok(b: Seq<u8>) -> bool
    decreases b.len(),
{
    let j = first_or_len(b, 38);
    &&& (j > 0 ==> piece_ok(b.take(j)))
    &&& (0 <= j < b.len() ==> params_ok(b.skip(j + 1)))
}

/// The `key=value` pairs of a query string, decoded, in order.
pub fn query_params(query: &str) -> (r: Vec<(String, String)>)
    requires
        params_ok(query.spec_bytes()),
    ensures
        pairs_view(r@) == params_spec(query.spec_bytes()),
{
    let b = query.as_bytes();
    let n = b.len();
    let mut out: Vec<(String, String)> = Vec::new();
    let mut pos: usize = 0;
    assert(b@.subrange(0, n as int) =~= b@);
    loop
        invariant
            n == b@.len(),
            b@ == query.spec_bytes(),
            pos <= n,
            pairs_view(out@) + params_spec(b@.subrange(pos as int, n as int)) == params_spec(b@),
        decreases n - pos,
    {
        let ghost sub = b@.subrange(pos as int, n as int);
        let ghost before = out@;
        let j = find_byte(b, pos, n, 38);
        proof {
            first_or_len_bounds(sub, 38);
            assert(sub.take(j - pos) =~= b@.subrange(pos as int, j as int));
            if j < n {
                assert(sub.skip(j - pos + 1) =~= b@.subrange(j + 1, n as int));
            }
        }
        if j > pos {
            let k = find_byte(b, pos, j, 61);
            let ghost p = b@.subrange(pos as int, j as int);
            proof {
                first_or_len_bounds(p, 61);
                assert(p.take(k - pos) =~= b@.subrange(pos as int, k as int));
                if k < j {
                    assert(p.skip(k - pos + 1) =~= b@.subrange(k + 1, j as int));
                }
            }
            let key = decode_text_range(b, pos, k);
            let value = if k < j {
                decode_text_range(b, k + 1, j)
            } else {
                let v = decode_text_range(b, j, j);
                assert(b@.subrange(j as int, j as int) =~= Seq::<u8>::empty());
                v
            };
            out.push((key, value));
            assert(pairs_view(out@) =~= pairs_view(before) + seq![param_of(p)]);
        } else {
            assert(pairs_view(out@) =~= pairs_view(before));
        }
        if j < n {
            pos = j + 1;
        } else {
            assert(params_spec(sub) =~= (if j > pos { seq![param_of(sub.take(j - pos))] } else { Seq::empty() }));
            return out;
        }
    }
}

/// The value of the first pair whose key is `key`.
pub open spec fn find_param(ps: Seq<(Seq<char>, Seq<char>)>, key: Seq<char>) -> Option<Seq<char>>
    decreases ps.len(),
{
    if ps.len() == 0 {
        None
    } else if ps[0].0 == key {
        Some(ps[0].1)
    } else {
        find_param(ps.drop_first(), key)
    }
}

/// The value of the first pair whose key is `key`, if any.
pub fn param<'a>(params: &'a [(String, String)], key: &str) -> (r: Option<&'a str>)
    ensures
        opt_str_view(r) == find_param(pairs_view(params@), key@),
{
    let mut i: usize = 0;
    assert(params@.subrange(0, params@.len() as int) =~= params@);
    while i < params.len()
        invariant
            i <= params@.len(),
            find_param(pairs_view(params@), key@) == find_param(
                pairs_view(params@.subrange(i as int, params@.len() as int)), key@),
        decreases params@.len() - i,
    {
        let ghost rest = pairs_view(params@.subrange(i as int, params@.len() as int));
        assert(rest[0] == (params@[i as int].0@, params@[i as int].1@));
        if str_equal(params[i].0.as_str(), key) {
            return Some(params[i].1.as_str());
        }
        assert(rest.drop_first() =~= pairs_view(params@.subrange(i + 1, params@.len() as int)));
        i = i + 1;
    }
    assert(pairs_view(params@.subrange(i as int, params@.len() as int)) =~= Seq::empty());
    None
}

/// Whether `escapes_whole` holds of `b[from..to]`.
fn escapes_whole_range(b: &[u8], from: usize, to: usize) -> (r: bool)
    requires
        from <= to <= b@.len(),
    ensures
        r == escapes_whole(b@.subrange(from as int, to as int)),
{
    let ghost sub = b@.subrange(from as int, to as int);
    let mut i: usize = from;
    while i < to
        invariant
            from <= i <= to <= b@.len(),
            sub == b@.subrange(from as int, to as int),
            forall|k: int| 0 <= k < i - from && k + 3 < sub.len() && sub[k] == 37 ==> !is_continuation_byte(#[trigger] sub[k + 3]),
        decreases to - i,
    {
        if b[i] == 37 && to - i > 3 {
            let c = b[i + 3];
            if 0x80 <= c && c <= 0xbf {
                assert(sub[(i - from) + 3] == c);
                assert(is_continuation_byte(sub[(i - from) + 3]));
                return false;
            }
        }
        i = i + 1;
    }
    true
}

/// Whether `escapes_whole` holds, that is, whether decoding the text would not cut a
/// character apart (the condition under which percent-decoding is defined here).
pub fn escapes_are_whole(s: &str) -> (r: bool)
    ensures
        r == escapes_whole(s.spec_bytes()),
{
    let b = s.as_bytes();
    assert(b@.subrange(0, b@.len() as int) =~= b@);
    escapes_whole_range(b, 0, b.len())
}

/// Whether `params_ok` holds of a query string, that is, whether `query_params` can
/// decode every key and value of it.
pub fn query_escapes_whole(query: &str) -> (r: bool)
    ensures
        r == params_ok(query.spec_bytes()),
{
    let b = query.as_bytes();
    let n = b.len();
    let mut pos: usize = 0;
    assert(b@.subrange(0, n as int) =~= b@);
    loop
        invariant
            n == b@.len(),
            b@ == query.spec_bytes(),
            pos <= n,
            params_ok(b@) == params_ok(b@.subrange(pos as int, n as int)),
        decreases n - pos,
    {
        let ghost sub = b@.subrange(pos as int, n as int);
        let j = find_byte(b, pos, n, 38);
        proof {
            first_or_len_bounds(sub, 38);
            assert(sub.take(j - pos) =~= b@.subrange(pos as int, j as int));
            if j < n {
                assert(sub.skip(j - pos + 1) =~= b@.subrange(j + 1, n as int));
            }
        }
        if j > pos {
            let k = find_byte(b, pos, j, 61);
            let ghost p = b@.subrange(pos as int, j as int);
            proof {
                first_or_len_bounds(p, 61);
                assert(p.take(k - pos) =~= b@.subrange(pos as int, k as int));
                if k < j {
                    assert(p.skip(k - pos + 1) =~= b@.subrange(k + 1, j as int));
                }
            }
            let ok = if k < j {
                escapes_whole_range(b, pos, k) && escapes_whole_range(b, k + 1, j)
            } else {
                escapes_whole_range(b, pos, j)
            };
            if !ok {
                return false;
            }
        }
        if j < n {
            pos = j + 1;
        } else {
            return true;
        }
    }
}

} // verus!

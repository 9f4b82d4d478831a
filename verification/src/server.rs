//! Request handling decisions of the local dashboard server: which handler a request
//! goes to, which embedded file a static path names, and the small text rules the
//! handlers share.

use vstd::prelude::*;
use vstd::string::StringSliceAdditionalSpecFns;
use crate::text::{ascii_upper, push_char, push_str, str_equal, string_from_chars, to_chars};

verus! {

/// The embedded front-end files.
#[derive(PartialEq, Eq, Structural, Clone, Copy, Debug)]
pub enum Asset {
    IndexHtml,
    StyleCss,
    AppJs,
}

/// What a request is answered with.
#[derive(PartialEq, Eq, Structural, Clone, Copy, Debug)]
pub enum Route {
    /// An embedded file (`GET /` and `GET /static/...`).
    Asset(Asset),
    Summary,
    Heatmap,
    Trend,
    ExportCsv,
    ExportHeatmapPng,
    GetSettings,
    Status,
    SetPause,
    SetAutostart,
    SaveSettings,
    /// `404 Not Found`.
    NotFound,
}

/// The embedded file a path below `/static/` names.
pub open spec fn static_asset_spec(rel: Seq<char>) -> Option<Asset> {
    if rel == "index.html"@ {
        Some(Asset::IndexHtml)
    } else if rel == "style.css"@ {
        Some(Asset::StyleCss)
    } else if rel == "app.js"@ {
        Some(Asset::AppJs)
    } else {
        None
    }
}

/// The embedded file a path below `/static/` names, if any.
pub fn static_asset(rel: &str) -> (r: Option<Asset>)
    ensures
        r == static_asset_spec(rel@),
{
    if str_equal(rel, "index.html") {
        Some(Asset::IndexHtml)
    } else if str_equal(rel, "style.css") {
        Some(Asset::StyleCss)
    } else if str_equal(rel, "app.js") {
        Some(Asset::AppJs)
    } else {
        None
    }
}

/// The content type an embedded file is served with.
pub fn asset_content_type(a: Asset) -> (r: &'static str)
    ensures
        r@ == asset_content_type_spec(a),
{
    match a {
        Asset::IndexHtml => "text/html; charset=utf-8",
        Asset::StyleCss => "text/css; charset=utf-8",
        Asset::AppJs => "text/javascript; charset=utf-8",
    }
}

pub open spec fn asset_content_type_spec(a: Asset) -> Seq<char> {
    match a {
        Asset::IndexHtml => "text/html; charset=utf-8"@,
        Asset::StyleCss => "text/css; charset=utf-8"@,
        Asset::AppJs => "text/javascript; charset=utf-8"@,
    }
}

/// `s` ends with `suffix`.
pub open spec fn ends_with(s: Seq<char>, suffix: Seq<char>) -> bool {
    s.len() >= suffix.len() && s.skip(s.len() - suffix.len()) == suffix
}

/// The media type for a file name's extension: `.html` is HTML, `.css` a style sheet,
/// `.js` a script, all in UTF-8.
pub open spec fn media_type_for_name(name: Seq<char>) -> Option<Seq<char>> {
    if ends_with(name, ".html"@) {
        Some("text/html; charset=utf-8"@)
    } else if ends_with(name, ".css"@) {
        Some("text/css; charset=utf-8"@)
    } else if ends_with(name, ".js"@) {
        Some("text/javascript; charset=utf-8"@)
    } else {
        None
    }
}

/// Every embedded file is served with the media type of its file name's extension.
pub proof fn assets_served_with_their_media_type(rel: Seq<char>)
    ensures
        static_asset_spec(rel) matches Some(a) ==> media_type_for_name(rel) == Some(asset_content_type_spec(a)),
        media_type_for_name("index.html"@) == Some(asset_content_type_spec(Asset::IndexHtml)),
{
    reveal_strlit("index.html");
    reveal_strlit("style.css");
    reveal_strlit("app.js");
    reveal_strlit(".html");
    reveal_strlit(".css");
    reveal_strlit(".js");
    assert("index.html"@.skip(5) =~= ".html"@);
    assert("style.css"@.skip(5) =~= ".css"@);
    assert("style.css"@.skip(4)[0] != ".html"@[0]);
    assert("app.js"@.skip(3) =~= ".js"@);
    assert("app.js"@.skip(1)[0] != ".html"@[0]);
    assert("app.js"@.skip(2)[0] != ".css"@[0]);
}

/// ASCII upper-casing of a text (`str::to_ascii_uppercase`).
pub open spec fn upper_text(s: Seq<char>) -> Seq<char> {
    s.map_values(|c: char| ascii_upper(c))
}

pub open spec fn static_prefix() -> Seq<char> {
    "/static/"@
}

/// The handler for a request method and path. The method is compared without
/// regard to ASCII case.
pub open spec fn route_spec(method: Seq<char>, path: Seq<char>) -> Route {
    let m = upper_text(method);
    if m == "GET"@ {
        if path == "/"@ {
            Route::Asset(Asset::IndexHtml)
        } else if static_prefix().len() <= path.len() && path.take(
            static_prefix().len() as int,
        ) == static_prefix() {
            match static_asset_spec(path.skip(static_prefix().len() as int)) {
                Some(a) => Route::Asset(a),
                None => Route::NotFound,
            }
        } else if path == "/api/summary"@ {
            Route::Summary
        } else if path == "/api/heatmap"@ {
            Route::Heatmap
        } else if path == "/api/trend"@ {
            Route::Trend
        } else if path == "/api/export"@ {
            Route::ExportCsv
        } else if path == "/api/export/heatmap.png"@ {
            Route::ExportHeatmapPng
        } else if path == "/api/settings"@ {
            Route::GetSettings
        } else if path == "/api/status"@ {
            Route::Status
        } else {
            Route::NotFound
        }
    } else if m == "POST"@ {
        if path == "/api/pause"@ {
            Route::SetPause
        } else if path == "/api/autostart"@ {
            Route::SetAutostart
        } else if path == "/api/settings"@ {
            Route::SaveSettings
        } else {
            Route::NotFound
        }
    } else {
        Route::NotFound
    }
}

fn upper_chars(s: &str) -> (r: String)
    ensures
        r@ == upper_text(s@),
{
    let v = to_chars(s);
    let mut out = String::new();
    let mut i: usize = 0;
    while i < v.len()
        invariant
            i <= v@.len(),
            v@ == s@,
            out@ == upper_text(v@.take(i as int)),
        decreases v@.len() - i,
    {
        let c = crate::text::to_ascii_uppercase(v[i]);
        push_char(&mut out, c);
        i = i + 1;
        assert(out@ =~= upper_text(v@.take(i as int)));
    }
    assert(v@.take(i as int) =~= v@);
    out
}

/// The handler for a request.
pub fn route(method: &str, path: &str) -> (r: Route)
    ensures
        r == route_spec(method@, path@),
{
    let m = upper_chars(method);
    let m = m.as_str();
    if str_equal(m, "GET") {
        if str_equal(path, "/") {
            return Route::Asset(Asset::IndexHtml);
        }
        let pv = to_chars(path);
        let prefix = to_chars("/static/");
        if prefix.len() <= pv.len() {
            let head = string_from_chars(&pv, 0, prefix.len());
            if str_equal(head.as_str(), "/static/") {
                let rest = string_from_chars(&pv, prefix.len(), pv.len());
                assert(pv@.take(prefix@.len() as int) =~= pv@.subrange(0, prefix@.len() as int));
                assert(pv@.skip(prefix@.len() as int) =~= pv@.subrange(prefix@.len() as int, pv@.len() as int));
                return match static_asset(rest.as_str()) {
                    Some(a) => Route::Asset(a),
                    None => Route::NotFound,
                };
            }
            assert(pv@.take(prefix@.len() as int) =~= pv@.subrange(0, prefix@.len() as int));
        }
        if str_equal(path, "/api/summary") {
            Route::Summary
        } else if str_equal(path, "/api/heatmap") {
            Route::Heatmap
        } else if str_equal(path, "/api/trend") {
            Route::Trend
        } else if str_equal(path, "/api/export") {
            Route::ExportCsv
        } else if str_equal(path, "/api/export/heatmap.png") {
            Route::ExportHeatmapPng
        } else if str_equal(path, "/api/settings") {
            Route::GetSettings
        } else if str_equal(path, "/api/status") {
            Route::Status
        } else {
            Route::NotFound
        }
    } else if str_equal(m, "POST") {
        if str_equal(path, "/api/pause") {
            Route::SetPause
        } else if str_equal(path, "/api/autostart") {
            Route::SetAutostart
        } else if str_equal(path, "/api/settings") {
            Route::SaveSettings
        } else {
            Route::NotFound
        }
    } else {
        Route::NotFound
    }
}

// ---------------------------------------------------------------- URL and labels

/// Index of the first `c` in `s`, or the length of `s`.
pub open spec fn char_index_or_len(s: Seq<char>, c: char) -> int
    decreases s.len(),
{
    if s.len() == 0 {
        0
    } else if s[0] == c {
        0
    } else {
        1 + char_index_or_len(s.drop_first(), c)
    }
}

/// A URL split at its first `?` into path and query (an empty query when there is no `?`).
pub open spec fn split_url_spec(url: Seq<char>) -> (Seq<char>, Seq<char>) {
    let i = char_index_or_len(url, '?');
    if i < url.len() {
        (url.take(i), url.skip(i + 1))
    } else {
        (url, Seq::empty())
    }
}

/// Splits a request URL into path and query string.
pub fn split_url(url: &str) -> (r: (String, String))
    ensures
        (r.0@, r.1@) == split_url_spec(url@),
{
    let v = to_chars(url);
    let mut i: usize = 0;
    assert(v@.skip(0) =~= v@);
    while i < v.len() && v[i] != '?'
        invariant
            v@ == url@,
            i <= v@.len(),
            char_index_or_len(v@, '?') == i + char_index_or_len(v@.skip(i as int), '?'),
        decreases v@.len() - i,
    {
        assert(v@.skip(i as int)[0] == v@[i as int]);
        assert(v@.skip(i as int).drop_first() =~= v@.skip(i + 1));
        i = i + 1;
    }
    proof {
        if i == v@.len() {
            assert(v@.skip(i as int) =~= Seq::<char>::empty());
        } else {
            assert(v@.skip(i as int)[0] == v@[i as int]);
        }
    }
    if i < v.len() {
        let path = string_from_chars(&v, 0, i);
        let query = string_from_chars(&v, i + 1, v.len());
        assert(v@.take(i as int) =~= v@.subrange(0, i as int));
        assert(v@.skip(i + 1) =~= v@.subrange(i + 1, v@.len() as int));
        (path, query)
    } else {
        (url.to_owned(), String::new())
    }
}

/// The label of a range: one day, or `first 至 last`.
pub open spec fn date_label_spec(first: Seq<char>, last: Seq<char>) -> Seq<char> {
    if first == last {
        first
    } else {
        first + " 至 "@ + last
    }
}

/// The label of a range from its first and last day.
pub fn date_label(first: &str, last: &str) -> (r: String)
    ensures
        r@ == date_label_spec(first@, last@),
{
    if str_equal(first, last) {
        first.to_owned()
    } else {
        let mut s = first.to_owned();
        push_str(&mut s, " 至 ");
        push_str(&mut s, last);
        s
    }
}

/// The `date` parameter of the heatmap export as `valid_iso` accepts it: ten bytes
/// with `-` at positions 4 and 7.
pub open spec fn iso_shape(b: Seq<u8>) -> bool {
    b.len() == 10 && b[4] == 45 && b[7] == 45
}

/// The day of the heatmap export when it has the shape of an ISO date.
pub fn valid_iso(s: &str) -> (r: Option<String>)
    ensures
        match r {
            Some(t) => iso_shape(s.spec_bytes()) && t@ == s@,
            None => !iso_shape(s.spec_bytes()),
        },
{
    let b = s.as_bytes();
    if b.len() == 10 && b[4] == 45 && b[7] == 45 {
        Some(s.to_owned())
    } else {
        None
    }
}

proof fn char_index_facts(s: Seq<char>, c: char)
    ensures
        0 <= char_index_or_len(s, c) <= s.len(),
        forall|k: int| 0 <= k < char_index_or_len(s, c) ==> s[k] != c,
        char_index_or_len(s, c) < s.len() ==> s[char_index_or_len(s, c)] == c,
    decreases s.len(),
{
    if s.len() > 0 && s[0] != c {
        char_index_facts(s.drop_first(), c);
        assert forall|k: int| 0 <= k < char_index_or_len(s, c) implies s[k] != c by {
            if k > 0 {
                assert(s[k] == s.drop_first()[k - 1]);
            }
        }
    }
}

/// Splitting a URL loses nothing: the path holds no `?`, and the path, the `?` (when
/// the URL has one) and the query give back the URL.
pub proof fn split_url_round_trip(url: Seq<char>)
    ensures
        !split_url_spec(url).0.contains('?'),
        url.contains('?') ==> split_url_spec(url).0 + seq!['?'] + split_url_spec(url).1 == url,
        !url.contains('?') ==> split_url_spec(url).0 == url && split_url_spec(url).1.len() == 0,
{
    char_index_facts(url, '?');
    let i = char_index_or_len(url, '?');
    if i < url.len() {
        assert(url.take(i) + seq!['?'] + url.skip(i + 1) =~= url);
        assert(url.contains('?'));
    } else {
        assert(!url.contains('?'));
    }
}

} // verus!

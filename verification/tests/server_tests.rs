use keycounter::query::{escapes_are_whole, param, percent_decode, query_escapes_whole, query_params};
use keycounter::server::{date_label, route, split_url, static_asset, valid_iso, Asset, Route};

#[test]
fn decoding() {
    assert_eq!(percent_decode("a%20b"), "a b");
    assert_eq!(percent_decode("%E5%85%A8"), "全");
    assert_eq!(percent_decode("100%"), "100%");
    assert_eq!(percent_decode("%zz"), "%zz");
    assert_eq!(percent_decode("%+5"), "\u{5}");
    assert_eq!(percent_decode("%4"), "%4");
    assert_eq!(percent_decode("%41%42"), "AB");
    assert_eq!(percent_decode("%2541"), "%41");
    assert_eq!(percent_decode("%FF"), "\u{FFFD}");
    assert_eq!(percent_decode("plain"), "plain");
}

#[test]
fn escape_check() {
    assert!(escapes_are_whole("%41%42"));
    assert!(escapes_are_whole("%é"));
    assert!(!escapes_are_whole("%aé"));
}

#[test]
fn params_are_split_and_decoded() {
    let ps = query_params("start=2026-08-01&end=all&&flag&x=a%3Db=c");
    assert_eq!(
        ps,
        vec![
            ("start".to_string(), "2026-08-01".to_string()),
            ("end".to_string(), "all".to_string()),
            ("flag".to_string(), "".to_string()),
            ("x".to_string(), "a=b=c".to_string()),
        ]
    );
    assert_eq!(param(&ps, "end"), Some("all"));
    assert_eq!(param(&ps, "flag"), Some(""));
    assert_eq!(param(&ps, "none"), None);
    assert_eq!(query_params(""), vec![]);
    assert_eq!(query_params("&&"), vec![]);
    let dup = query_params("a=1&a=2");
    assert_eq!(param(&dup, "a"), Some("1"));
}

#[test]
fn routes() {
    assert_eq!(route("GET", "/"), Route::Asset(Asset::IndexHtml));
    assert_eq!(route("get", "/static/app.js"), Route::Asset(Asset::AppJs));
    assert_eq!(route("GET", "/static/style.css"), Route::Asset(Asset::StyleCss));
    assert_eq!(route("GET", "/static/other.js"), Route::NotFound);
    assert_eq!(route("GET", "/api/summary"), Route::Summary);
    assert_eq!(route("GET", "/api/heatmap"), Route::Heatmap);
    assert_eq!(route("GET", "/api/trend"), Route::Trend);
    assert_eq!(route("GET", "/api/export"), Route::ExportCsv);
    assert_eq!(route("GET", "/api/export/heatmap.png"), Route::ExportHeatmapPng);
    assert_eq!(route("GET", "/api/settings"), Route::GetSettings);
    assert_eq!(route("GET", "/api/status"), Route::Status);
    assert_eq!(route("POST", "/api/pause"), Route::SetPause);
    assert_eq!(route("Post", "/api/autostart"), Route::SetAutostart);
    assert_eq!(route("POST", "/api/settings"), Route::SaveSettings);
    assert_eq!(route("POST", "/api/summary"), Route::NotFound);
    assert_eq!(route("PUT", "/api/settings"), Route::NotFound);
    assert_eq!(static_asset("index.html"), Some(Asset::IndexHtml));
    assert_eq!(static_asset("x"), None);
}

#[test]
fn url_split_and_labels() {
    assert_eq!(split_url("/api/trend?start=a&end=b"), ("/api/trend".to_string(), "start=a&end=b".to_string()));
    assert_eq!(split_url("/"), ("/".to_string(), "".to_string()));
    assert_eq!(split_url("/x?a?b"), ("/x".to_string(), "a?b".to_string()));
    assert_eq!(date_label("2026-08-01", "2026-08-01"), "2026-08-01");
    assert_eq!(date_label("2026-08-01", "2026-08-03"), "2026-08-01 至 2026-08-03");
    assert_eq!(valid_iso("2026-08-01"), Some("2026-08-01".to_string()));
    assert_eq!(valid_iso("2026x08-01"), None);
    assert_eq!(valid_iso("2026-08-1"), None);
}

#[test]
fn plain_components_unchanged() {
    for s in ["", "2026-08-01", "键盘 a+b", "x=y", "😀"] {
        assert_eq!(percent_decode(s), s);
    }
}

#[test]
fn split_url_loses_nothing() {
    for url in ["/api/summary?start=a?b&end=c", "/index.html", "/?", "?x", "/路径?键=值"] {
        let (path, query) = split_url(url);
        assert!(!path.contains('?'));
        if url.contains('?') {
            assert_eq!(format!("{path}?{query}"), url);
        } else {
            assert_eq!(path, url);
            assert!(query.is_empty());
        }
    }
}

#[test]
fn escapes_checked_per_key_and_value() {
    assert!(query_escapes_whole("%&é"));
    assert!(query_escapes_whole("%=é"));
    assert!(query_escapes_whole("a=%41&b"));
    assert!(!query_escapes_whole("a=%aé"));
    assert!(!query_escapes_whole("%aé=1"));
    assert_eq!(
        query_params("%&é"),
        vec![("%".to_string(), "".to_string()), ("é".to_string(), "".to_string())]
    );
    assert_eq!(query_params("%=é"), vec![("%".to_string(), "é".to_string())]);
    assert_eq!(
        query_params("a&&b=1=2&c=%E6%97%A5"),
        vec![
            ("a".to_string(), "".to_string()),
            ("b".to_string(), "1=2".to_string()),
            ("c".to_string(), "\u{65e5}".to_string())
        ]
    );
}

#[test]
fn percent_encoding_round_trip() {
    let encode = |b: &[u8]| b.iter().map(|x| format!("%{:02X}", x)).collect::<String>();
    for s in ["", "a b", "键盘 😀", "100%&=+", "start=2026-08-01"] {
        assert_eq!(percent_decode(&encode(s.as_bytes())), s);
    }
    let bytes: Vec<u8> = (0..=255u8).collect();
    assert_eq!(percent_decode(&encode(&bytes)), String::from_utf8_lossy(&bytes));
    assert_eq!(percent_decode(&encode(&[0xFF, 0x41])), "\u{FFFD}A");
}

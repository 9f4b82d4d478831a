use keycounter::model::{now_text, range_bounds, range_bounds_on, today_text, valid_date};

#[test]
fn all_range() {
    let (ls, le, ss, se) = range_bounds(Some("all"), None);
    assert_eq!(ls, "全部");
    assert_eq!(ss, "0000-01-01 00:00:00");
    assert_eq!(se, "9999-12-31 23:59:59");
    assert_eq!(le, "全部");
}

#[test]
fn swap_when_reversed() {
    let (ls, le, ss, se) = range_bounds(Some("2026-08-03"), Some("2026-08-01"));
    assert_eq!(ls, "2026-08-01");
    assert_eq!(le, "2026-08-03");
    assert_eq!(ss, "2026-08-01 00:00:00");
    assert_eq!(se, "2026-08-03 23:59:59");
}

#[test]
fn invalid_falls_back_to_today() {
    let (ls, le, ss, se) = range_bounds(Some("bad"), Some("2026-08-01"));
    let today = chrono::Local::now().format("%Y-%m-%d").to_string();
    assert_eq!(ls, "2026-08-01");
    assert_eq!(le, today);
    assert_eq!(ss, "2026-08-01 00:00:00");
    assert_eq!(se, format!("{today} 23:59:59"));
}

#[test]
fn range_on_given_today() {
    let t = || "2030-01-15".to_string();
    assert_eq!(
        range_bounds_on(None, None, t()),
        ("2030-01-15".into(), "2030-01-15".into(), "2030-01-15 00:00:00".into(), "2030-01-15 23:59:59".into())
    );
    assert_eq!(
        range_bounds_on(Some("2030-02-01"), Some("bad"), t()),
        ("2030-01-15".into(), "2030-02-01".into(), "2030-01-15 00:00:00".into(), "2030-02-01 23:59:59".into())
    );
    assert_eq!(range_bounds_on(None, Some("all"), t()).0, "全部");
    // symmetric in its two ends
    assert_eq!(
        range_bounds_on(Some("2024-03-01"), Some("2024-02-29"), t()),
        range_bounds_on(Some("2024-02-29"), Some("2024-03-01"), t())
    );
}

#[test]
fn date_validation() {
    assert!(valid_date("2026-08-01"));
    assert!(valid_date("0001-01-01"));
    assert!(!valid_date("0000-01-01"));
    assert!(!valid_date("2026-13-01"));
    assert!(!valid_date("2026-00-10"));
    assert!(!valid_date("2026-01-32"));
    assert!(!valid_date("2026-01-00"));
    assert!(!valid_date("2026/01/01"));
    assert!(!valid_date("2026-1-01"));
    assert!(!valid_date("２026-01-01"));
    assert!(valid_date("2026-02-31"));
}

#[test]
fn clock_texts_have_their_shape() {
    let now = now_text();
    let today = today_text();
    assert_eq!(now.len(), 19);
    assert!(valid_date(&today));
    assert!(valid_date(&now[..10]));
    assert_eq!(&now[10..11], " ");
}

#[test]
fn clock_time_fields_in_range() {
    let now = now_text();
    let b = now.as_bytes();
    let two = |i: usize| ((b[i] - b'0') as u32) * 10 + (b[i + 1] - b'0') as u32;
    assert!(b[11..13].iter().chain(&b[14..16]).chain(&b[17..19]).all(|c| c.is_ascii_digit()));
    assert_eq!(b[13], b':');
    assert_eq!(b[16], b':');
    assert!(two(11) <= 23 && two(14) <= 59 && two(17) <= 60);
    assert!((1..=12).contains(&two(5)) && (1..=31).contains(&two(8)));
}

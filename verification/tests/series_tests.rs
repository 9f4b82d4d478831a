use keycounter::heatmap::count_for;
use keycounter::trend::{day_series, hour_series, trend_by_hour};

fn pairs(v: &[(&str, i64)]) -> Vec<(String, i64)> {
    v.iter().map(|(a, b)| (a.to_string(), *b)).collect()
}

#[test]
fn day_series_merges_sorted_unique_days() {
    let keys = pairs(&[("2024-05-02", 10), ("2024-05-01", 4)]);
    let clicks = pairs(&[("2024-05-03", 7), ("2024-05-01", 1)]);
    let dist = pairs(&[("2024-05-02", 100)]);
    let rows = day_series(&keys, &clicks, &dist, 0i64);
    assert_eq!(
        rows,
        vec![
            ("2024-05-01".to_string(), 4, 1, 0),
            ("2024-05-02".to_string(), 10, 0, 100),
            ("2024-05-03".to_string(), 0, 7, 0),
        ]
    );
}

#[test]
fn day_series_last_row_wins() {
    let keys = pairs(&[("2024-05-01", 4), ("2024-05-01", 9)]);
    let rows = day_series(&keys, &Vec::new(), &Vec::<(String, f64)>::new(), 0.0f64);
    assert_eq!(rows, vec![("2024-05-01".to_string(), 9, 0, 0.0)]);
}

#[test]
fn day_series_empty() {
    let rows = day_series(&Vec::new(), &Vec::new(), &Vec::<(String, i64)>::new(), 0i64);
    assert!(rows.is_empty());
}

#[test]
fn trend_by_hour_only_for_one_day() {
    assert!(trend_by_hour("2024-05-01", "2024-05-01"));
    assert!(!trend_by_hour("2024-05-01", "2024-05-02"));
    assert!(!trend_by_hour("全部", "全部"));
}

#[test]
fn hour_series_fills_missing_hours() {
    let rows = pairs(&[("00", 3), ("13", 8), ("24", 99), ("x", 5)]);
    let s = hour_series(&rows, 0i64);
    assert_eq!(s.len(), 24);
    assert_eq!(s[0], 3);
    assert_eq!(s[13], 8);
    assert_eq!(s.iter().sum::<i64>(), 11);
}

#[test]
fn count_for_exact_id() {
    let counts = pairs(&[("A", 5), ("Space", 2)]);
    assert_eq!(count_for(&counts, "A"), 5);
    assert_eq!(count_for(&counts, "Space"), 2);
}

#[test]
fn count_for_falls_back_to_upper_case() {
    let counts = pairs(&[("A", 5), ("F1", 3)]);
    assert_eq!(count_for(&counts, "a"), 5);
    assert_eq!(count_for(&counts, "f1"), 3);
}

#[test]
fn count_for_missing_is_zero() {
    let counts = pairs(&[("A", 5)]);
    assert_eq!(count_for(&counts, "B"), 0);
    assert_eq!(count_for(&Vec::new(), "A"), 0);
}

#[test]
fn count_for_last_pair_wins() {
    let counts = pairs(&[("A", 5), ("A", 6)]);
    assert_eq!(count_for(&counts, "A"), 6);
}

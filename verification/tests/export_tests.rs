use keycounter::export::csv_text;

#[test]
fn csv_layout() {
    let daily = vec![
        ("2026-08-01".to_string(), 120, 30, 5, "1234.5".to_string()),
        ("2026-08-02".to_string(), 0, 0, 0, "0".to_string()),
    ];
    let keys = vec![("A".to_string(), 100), ("space".to_string(), 20)];
    let text = csv_text("2026-08-02 10:00:00", &daily, &keys);
    let expected = "\u{FEFF}KeyCounter 数据导出\r\n\
                    导出时间,2026-08-02 10:00:00\r\n\
                    \r\n\
                    每日统计\r\n\
                    日期,按键总数,点击总数,滚轮总数,移动距离像素\r\n\
                    2026-08-01,120,30,5,1234.5\r\n\
                    2026-08-02,0,0,0,0\r\n\
                    \r\n\
                    按键统计\r\n\
                    按键,次数\r\n\
                    A,100\r\n\
                    space,20\r\n";
    assert_eq!(text, expected);
}

#[test]
fn csv_empty_tables() {
    let text = csv_text("t", &Vec::new(), &Vec::new());
    assert_eq!(
        text,
        "\u{FEFF}KeyCounter 数据导出\r\n导出时间,t\r\n\r\n每日统计\r\n日期,按键总数,点击总数,滚轮总数,移动距离像素\r\n\r\n按键统计\r\n按键,次数\r\n"
    );
}

#[test]
fn csv_integers_as_display() {
    for n in [0i64, 7, 10, 99, 100, 1_000_000, -1, -42, i64::MAX, i64::MIN] {
        let text = csv_text("t", &Vec::new(), &vec![("k".to_string(), n)]);
        assert!(text.ends_with(&format!("按键,次数\r\nk,{n}\r\n")));
    }
}

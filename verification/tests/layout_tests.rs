use keycounter::layout::{
    heatmap_cells, keyboard_rows, nav_keys, numpad_keys, Rect, CANVAS_H, CANVAS_W, NAV_X, NUM_X,
};
use keycounter::ui::to_wide;

fn cell(id: &str, nth: usize) -> Rect {
    heatmap_cells()
        .into_iter()
        .filter(|c| c.key_id == id)
        .nth(nth)
        .map(|c| c.rect)
        .unwrap()
}

#[test]
fn canvas_is_1284_by_432() {
    assert_eq!(CANVAS_W, 1284);
    assert_eq!(CANVAS_H, 432);
    assert_eq!(NAV_X, 866);
    assert_eq!(NUM_X, 1042);
}

#[test]
fn one_cell_per_key() {
    let cells = heatmap_cells();
    assert_eq!(cells.len(), 100);
    let main: usize = keyboard_rows().iter().map(|r| r.len()).sum();
    assert_eq!(main, 73);
    assert_eq!(nav_keys().len(), 10);
    assert_eq!(numpad_keys().len(), 17);
}

#[test]
fn main_block_positions() {
    assert_eq!(cell("esc", 0), Rect { x: 24, y: 92, w: 50, h: 42 });
    assert_eq!(cell("backspace", 0), Rect { x: 752, y: 140, w: 106, h: 42 });
    assert_eq!(cell("tab", 0), Rect { x: 24, y: 188, w: 78, h: 42 });
    assert_eq!(cell("capslock", 0), Rect { x: 24, y: 236, w: 92, h: 42 });
    assert_eq!(cell("enter", 0), Rect { x: 738, y: 236, w: 120, h: 42 });
    assert_eq!(cell("space", 0), Rect { x: 248, y: 332, w: 344, h: 42 });
    assert_eq!(cell("shift", 1), Rect { x: 710, y: 284, w: 148, h: 42 });
}

#[test]
fn side_block_positions() {
    assert_eq!(cell("insert", 0), Rect { x: 866, y: 92, w: 50, h: 42 });
    assert_eq!(cell("right", 0), Rect { x: 978, y: 284, w: 50, h: 42 });
    assert_eq!(cell("numpad_add", 0), Rect { x: 1210, y: 140, w: 50, h: 90 });
    assert_eq!(cell("numpad0", 0), Rect { x: 1042, y: 284, w: 106, h: 42 });
    assert_eq!(cell("enter", 1), Rect { x: 1210, y: 236, w: 50, h: 90 });
}

#[test]
fn cells_do_not_overlap_and_fit() {
    let cells = heatmap_cells();
    for (i, a) in cells.iter().enumerate() {
        let a = a.rect;
        assert!(a.x + a.w <= CANVAS_W && a.y + a.h <= CANVAS_H);
        for b in cells.iter().skip(i + 1) {
            let b = b.rect;
            assert!(a.x + a.w <= b.x || b.x + b.w <= a.x || a.y + a.h <= b.y || b.y + b.h <= a.y);
        }
    }
}

#[test]
fn wide_strings() {
    assert_eq!(to_wide(""), vec![0]);
    assert_eq!(to_wide("KC"), vec![0x4B, 0x43, 0]);
    assert_eq!(to_wide("键"), vec![0x952E, 0]);
    assert_eq!(to_wide("a😀"), vec![0x61, 0xD83D, 0xDE00, 0]);
    let s = "KeyCounter 键盘热力图 😀";
    let mut expected: Vec<u16> = s.encode_utf16().collect();
    expected.push(0);
    assert_eq!(to_wide(s), expected);
}

#[test]
fn key_ids_in_place() {
    let rows = keyboard_rows();
    let ids: Vec<&str> = rows[2].iter().map(|k| k.key_id).collect();
    assert_eq!(ids, vec!["tab", "q", "w", "e", "r", "t", "y", "u", "i", "o", "p", "[", "]", "\\"]);
    assert_eq!(cell("q", 0), Rect { x: 108, y: 188, w: 50, h: 42 });
    assert_eq!(cell("w", 0), Rect { x: 164, y: 188, w: 50, h: 42 });
}

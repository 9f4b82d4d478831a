//! Geometry of the keyboard heatmap: where each key cell of the picture stands.
//!
//! All lengths are whole pixels. A key of the main block is `quarters / 4` key units
//! wide; one key unit is `KEY_W` pixels and neighbouring keys are `GAP` apart, so a
//! key of `q` quarters is `q * QUARTER_STEP - GAP` wide and the next key starts
//! `q * QUARTER_STEP` further right.

use vstd::prelude::*;

verus! {

pub const KEY_W: u32 = 50;
pub const KEY_H: u32 = 42;
pub const GAP: u32 = 6;
pub const PAD: u32 = 24;
pub const TITLE_H: u32 = 68;
pub const LEGEND_H: u32 = 34;
/// Space between the main block, the navigation block and the number pad.
pub const ZONE_GAP: u32 = 14;
/// Horizontal advance of a quarter key unit: `(KEY_W + GAP) / 4`.
pub const QUARTER_STEP: u32 = 14;
/// Vertical advance from one key row to the next.
pub const ROW_STEP: u32 = 48;
/// Width of the main block: its widest row is 15 key units (60 quarters) with 13 gaps.
pub const MAIN_W: u32 = 828;
/// Width of the navigation block: 3 keys and 2 gaps.
pub const NAV_W: u32 = 162;
/// Width of the number pad: 4 keys and 3 gaps.
pub const NUM_W: u32 = 218;
/// Top edge of the first key row.
pub const KEY_Y0: u32 = PAD + TITLE_H;
/// Left edge of the navigation block.
pub const NAV_X: u32 = PAD + MAIN_W + ZONE_GAP;
/// Left edge of the number pad.
pub const NUM_X: u32 = NAV_X + NAV_W + ZONE_GAP;
/// Width of the picture.
pub const CANVAS_W: u32 = PAD + MAIN_W + ZONE_GAP + NAV_W + ZONE_GAP + NUM_W + PAD;
/// Height of the picture: title, six key rows with five gaps, legend.
pub const CANVAS_H: u32 = PAD + TITLE_H + 6 * KEY_H + 5 * GAP + LEGEND_H + PAD;
/// Most quarters a row of the main block may hold.
pub const MAX_ROW_QUARTERS: u32 = 60;

/// An axis-aligned rectangle: left, top, width, height.
#[derive(Clone, Copy, Debug, PartialEq, Eq)]
pub struct Rect {
    pub x: u32,
    pub y: u32,
    pub w: u32,
    pub h: u32,
}

/// Two rectangles share no pixel.
pub open spec fn apart(a: Rect, b: Rect) -> bool {
    ||| a.x + a.w <= b.x
    ||| b.x + b.w <= a.x
    ||| a.y + a.h <= b.y
    ||| b.y + b.h <= a.y
}

/// A rectangle lies within the picture.
pub open spec fn on_canvas(a: Rect) -> bool {
    a.x + a.w <= CANVAS_W && a.y + a.h <= CANVAS_H
}

/// A key of the navigation block or of the number pad, placed on a grid: 1-based row
/// and column, and how many rows and columns it spans.
#[derive(Clone, Copy, Debug)]
pub struct GridKey {
    pub key_id: &'static str,
    pub label: &'static str,
    pub row: u32,
    pub col: u32,
    pub row_span: u32,
    pub col_span: u32,
}

/// The rows and columns of two grid keys do not meet.
pub open spec fn grid_apart(a: GridKey, b: GridKey) -> bool {
    ||| a.row + a.row_span <= b.row
    ||| b.row + b.row_span <= a.row
    ||| a.col + a.col_span <= b.col
    ||| b.col + b.col_span <= a.col
}

/// A grid key lies within the six key rows and within `cols` columns.
pub open spec fn grid_key_fits(g: GridKey, cols: int) -> bool {
    &&& 1 <= g.row
    &&& 1 <= g.row_span
    &&& g.row + g.row_span <= 7
    &&& 1 <= g.col
    &&& 1 <= g.col_span
    &&& g.col + g.col_span <= cols + 1
}

/// Every key fits the grid of `cols` columns and no two keys meet.
pub open spec fn valid_grid(keys: Seq<GridKey>, cols: int) -> bool {
    &&& forall|i: int| 0 <= i < keys.len() ==> grid_key_fits(#[trigger] keys[i], cols)
    &&& forall|i: int, j: int| 0 <= i < j < keys.len() ==> grid_apart(#[trigger] keys[i], #[trigger] keys[j])
}

/// The cell of a grid key in the block whose left edge is `x0`.
pub open spec fn grid_rect(g: GridKey, x0: int) -> Rect {
    Rect {
        x: (x0 + (g.col - 1) * (KEY_W + GAP)) as u32,
        y: (KEY_Y0 + (g.row - 1) * ROW_STEP) as u32,
        w: (g.col_span * (KEY_W + GAP) - GAP) as u32,
        h: (g.row_span * ROW_STEP - GAP) as u32,
    }
}

/// Grid keys that do not meet get cells that do not meet.
pub proof fn grid_cells_apart(a: GridKey, b: GridKey, x0: int, cols: int)
    requires
        grid_key_fits(a, cols),
        grid_key_fits(b, cols),
        grid_apart(a, b),
        0 <= x0,
        x0 + cols * 56 <= u32::MAX,
    ensures
        apart(grid_rect(a, x0), grid_rect(b, x0)),
{
    let ra = grid_rect(a, x0);
    let rb = grid_rect(b, x0);
    assert(ra.x == x0 + (a.col - 1) * 56);
    assert(rb.x == x0 + (b.col - 1) * 56);
    assert(ra.w == a.col_span * 56 - 6);
    assert(rb.w == b.col_span * 56 - 6);
    assert(ra.y == 92 + (a.row - 1) * 48);
    assert(rb.y == 92 + (b.row - 1) * 48);
    assert(ra.h == a.row_span * 48 - 6);
    assert(rb.h == b.row_span * 48 - 6);
}

/// The navigation block: the keys, their labels and their grid places.
pub open spec fn nav_keys_spec() -> Seq<GridKey> {
    seq![
        GridKey { key_id: "insert", label: "Ins", row: 1, col: 1, row_span: 1, col_span: 1 },
        GridKey { key_id: "home", label: "Home", row: 1, col: 2, row_span: 1, col_span: 1 },
        GridKey { key_id: "page_up", label: "PgUp", row: 1, col: 3, row_span: 1, col_span: 1 },
        GridKey { key_id: "delete", label: "Del", row: 2, col: 1, row_span: 1, col_span: 1 },
        GridKey { key_id: "end", label: "End", row: 2, col: 2, row_span: 1, col_span: 1 },
        GridKey { key_id: "page_down", label: "PgDn", row: 2, col: 3, row_span: 1, col_span: 1 },
        GridKey { key_id: "up", label: "\u{2191}", row: 4, col: 2, row_span: 1, col_span: 1 },
        GridKey { key_id: "left", label: "\u{2190}", row: 5, col: 1, row_span: 1, col_span: 1 },
        GridKey { key_id: "down", label: "\u{2193}", row: 5, col: 2, row_span: 1, col_span: 1 },
        GridKey { key_id: "right", label: "\u{2192}", row: 5, col: 3, row_span: 1, col_span: 1 },
    ]
}

/// The number pad: the keys, their labels and their grid places.
pub open spec fn numpad_keys_spec() -> Seq<GridKey> {
    seq![
        GridKey { key_id: "num_lock", label: "NumLk", row: 1, col: 1, row_span: 1, col_span: 1 },
        GridKey { key_id: "numpad_divide", label: "/", row: 1, col: 2, row_span: 1, col_span: 1 },
        GridKey { key_id: "numpad_multiply", label: "*", row: 1, col: 3, row_span: 1, col_span: 1 },
        GridKey { key_id: "numpad_subtract", label: "-", row: 1, col: 4, row_span: 1, col_span: 1 },
        GridKey { key_id: "numpad7", label: "7", row: 2, col: 1, row_span: 1, col_span: 1 },
        GridKey { key_id: "numpad8", label: "8", row: 2, col: 2, row_span: 1, col_span: 1 },
        GridKey { key_id: "numpad9", label: "9", row: 2, col: 3, row_span: 1, col_span: 1 },
        GridKey { key_id: "numpad_add", label: "+", row: 2, col: 4, row_span: 2, col_span: 1 },
        GridKey { key_id: "numpad4", label: "4", row: 3, col: 1, row_span: 1, col_span: 1 },
        GridKey { key_id: "numpad5", label: "5", row: 3, col: 2, row_span: 1, col_span: 1 },
        GridKey { key_id: "numpad6", label: "6", row: 3, col: 3, row_span: 1, col_span: 1 },
        GridKey { key_id: "numpad1", label: "1", row: 4, col: 1, row_span: 1, col_span: 1 },
        GridKey { key_id: "numpad2", label: "2", row: 4, col: 2, row_span: 1, col_span: 1 },
        GridKey { key_id: "numpad3", label: "3", row: 4, col: 3, row_span: 1, col_span: 1 },
        GridKey { key_id: "enter", label: "Enter", row: 4, col: 4, row_span: 2, col_span: 1 },
        GridKey { key_id: "numpad0", label: "0", row: 5, col: 1, row_span: 1, col_span: 2 },
        GridKey { key_id: "numpad_decimal", label: ".", row: 5, col: 3, row_span: 1, col_span: 1 },
    ]
}

/// The keys of the navigation block.
pub fn nav_keys() -> (r: Vec<GridKey>)
    ensures
        r@ == nav_keys_spec(),
        valid_grid(r@, 3),
        r@.len() == 10,
{
    let r = vec![
        GridKey { key_id: "insert", label: "Ins", row: 1, col: 1, row_span: 1, col_span: 1 },
        GridKey { key_id: "home", label: "Home", row: 1, col: 2, row_span: 1, col_span: 1 },
        GridKey { key_id: "page_up", label: "PgUp", row: 1, col: 3, row_span: 1, col_span: 1 },
        GridKey { key_id: "delete", label: "Del", row: 2, col: 1, row_span: 1, col_span: 1 },
        GridKey { key_id: "end", label: "End", row: 2, col: 2, row_span: 1, col_span: 1 },
        GridKey { key_id: "page_down", label: "PgDn", row: 2, col: 3, row_span: 1, col_span: 1 },
        GridKey { key_id: "up", label: "\u{2191}", row: 4, col: 2, row_span: 1, col_span: 1 },
        GridKey { key_id: "left", label: "\u{2190}", row: 5, col: 1, row_span: 1, col_span: 1 },
        GridKey { key_id: "down", label: "\u{2193}", row: 5, col: 2, row_span: 1, col_span: 1 },
        GridKey { key_id: "right", label: "\u{2192}", row: 5, col: 3, row_span: 1, col_span: 1 },
    ];
    proof {
        let s = r@;
        assert(s =~= nav_keys_spec());
        assert forall|i: int, j: int| 0 <= i < j < s.len() implies grid_apart(#[trigger] s[i], #[trigger] s[j]) by {
            assert(0 <= i < 10);
        }
    }
    r
}

/// The keys of the number pad.
pub fn numpad_keys() -> (r: Vec<GridKey>)
    ensures
        r@ == numpad_keys_spec(),
        valid_grid(r@, 4),
        r@.len() == 17,
{
    let r = vec![
        GridKey { key_id: "num_lock", label: "NumLk", row: 1, col: 1, row_span: 1, col_span: 1 },
        GridKey { key_id: "numpad_divide", label: "/", row: 1, col: 2, row_span: 1, col_span: 1 },
        GridKey { key_id: "numpad_multiply", label: "*", row: 1, col: 3, row_span: 1, col_span: 1 },
        GridKey { key_id: "numpad_subtract", label: "-", row: 1, col: 4, row_span: 1, col_span: 1 },
        GridKey { key_id: "numpad7", label: "7", row: 2, col: 1, row_span: 1, col_span: 1 },
        GridKey { key_id: "numpad8", label: "8", row: 2, col: 2, row_span: 1, col_span: 1 },
        GridKey { key_id: "numpad9", label: "9", row: 2, col: 3, row_span: 1, col_span: 1 },
        GridKey { key_id: "numpad_add", label: "+", row: 2, col: 4, row_span: 2, col_span: 1 },
        GridKey { key_id: "numpad4", label: "4", row: 3, col: 1, row_span: 1, col_span: 1 },
        GridKey { key_id: "numpad5", label: "5", row: 3, col: 2, row_span: 1, col_span: 1 },
        GridKey { key_id: "numpad6", label: "6", row: 3, col: 3, row_span: 1, col_span: 1 },
        GridKey { key_id: "numpad1", label: "1", row: 4, col: 1, row_span: 1, col_span: 1 },
        GridKey { key_id: "numpad2", label: "2", row: 4, col: 2, row_span: 1, col_span: 1 },
        GridKey { key_id: "numpad3", label: "3", row: 4, col: 3, row_span: 1, col_span: 1 },
        GridKey { key_id: "enter", label: "Enter", row: 4, col: 4, row_span: 2, col_span: 1 },
        GridKey { key_id: "numpad0", label: "0", row: 5, col: 1, row_span: 1, col_span: 2 },
        GridKey { key_id: "numpad_decimal", label: ".", row: 5, col: 3, row_span: 1, col_span: 1 },
    ];
    proof {
        let s = r@;
        assert(s =~= numpad_keys_spec());
        assert forall|i: int, j: int| 0 <= i < j < s.len() implies grid_apart(#[trigger] s[i], #[trigger] s[j]) by {
            assert(0 <= i < 17);
        }
    }
    r
}

/// A key of the main block: its id, its label and its width in quarter key units.
#[derive(Clone, Copy, Debug)]
pub struct RowKey {
    pub key_id: &'static str,
    pub label: &'static str,
    pub quarters: u32,
}

/// A key cell of the picture: which key, its label, and where it is drawn.
#[derive(Clone, Copy, Debug)]
pub struct KeyCell {
    pub key_id: &'static str,
    pub label: &'static str,
    pub rect: Rect,
}

/// The quarters of the first `k` keys of a row.
pub open spec fn quarter_sum(row: Seq<RowKey>, k: int) -> int
    decreases k,
{
    if k <= 0 {
        0
    } else {
        quarter_sum(row, k - 1) + row[k - 1].quarters
    }
}

/// A row of the main block: every key at least a quarter wide, the row at most
/// `MAX_ROW_QUARTERS` wide.
pub open spec fn valid_row(row: Seq<RowKey>) -> bool {
    &&& forall|k: int| 0 <= k < row.len() ==> 1 <= #[trigger] row[k].quarters
    &&& quarter_sum(row, row.len() as int) <= MAX_ROW_QUARTERS
}

/// At most six rows, each of them valid.
pub open spec fn valid_rows(rows: Seq<Vec<RowKey>>) -> bool {
    &&& rows.len() <= 6
    &&& forall|r: int| 0 <= r < rows.len() ==> valid_row(#[trigger] rows[r]@)
}

/// The cell of key `k` of main row `r`: keys are laid left to right from `PAD`.
pub open spec fn main_rect(row: Seq<RowKey>, r: int, k: int) -> Rect {
    Rect {
        x: (PAD + 14 * quarter_sum(row, k)) as u32,
        y: (KEY_Y0 + 48 * r) as u32,
        w: (14 * row[k].quarters - GAP) as u32,
        h: KEY_H,
    }
}

/// The cells of main row `r`.
pub open spec fn row_cells(row: Seq<RowKey>, r: int) -> Seq<KeyCell> {
    Seq::new(row.len(), |k: int| KeyCell { key_id: row[k].key_id, label: row[k].label, rect: main_rect(row, r, k) })
}

/// The cells of the first `n` main rows, row after row.
pub open spec fn main_cells(rows: Seq<Seq<RowKey>>, n: int) -> Seq<KeyCell>
    decreases n,
{
    if n <= 0 {
        Seq::empty()
    } else {
        main_cells(rows, n - 1) + row_cells(rows[n - 1], n - 1)
    }
}

/// The cells of a grid block whose left edge is `x0`.
pub open spec fn grid_cells(keys: Seq<GridKey>, x0: int) -> Seq<KeyCell> {
    Seq::new(keys.len(), |i: int| KeyCell { key_id: keys[i].key_id, label: keys[i].label, rect: grid_rect(keys[i], x0) })
}

/// All cells of the picture: the main block, then the navigation block, then the
/// number pad.
pub open spec fn layout_spec(rows: Seq<Seq<RowKey>>, nav: Seq<GridKey>, pad: Seq<GridKey>) -> Seq<KeyCell> {
    main_cells(rows, rows.len() as int) + grid_cells(nav, NAV_X as int) + grid_cells(pad, NUM_X as int)
}

/// No two cells share a pixel.
pub open spec fn all_apart(cells: Seq<KeyCell>) -> bool {
    forall|i: int, j: int| 0 <= i < j < cells.len() ==> apart(#[trigger] cells[i].rect, #[trigger] cells[j].rect)
}

proof fn quarter_sum_grows(row: Seq<RowKey>, k: int, m: int)
    requires
        0 <= k <= m <= row.len(),
    ensures
        quarter_sum(row, k) <= quarter_sum(row, m),
    decreases m - k,
{
    if k < m {
        quarter_sum_grows(row, k, m - 1);
    }
}

/// Appends the cells of a grid block whose left edge is `x0` to cells that all end
/// left of `x0`.
fn push_grid_cells(out: &mut Vec<KeyCell>, keys: &Vec<GridKey>, x0: u32, cols: u32)
    requires
        valid_grid(keys@, cols as int),
        1 <= cols,
        x0 + cols * 56 - GAP <= CANVAS_W,
        forall|i: int| 0 <= i < old(out)@.len() ==> #[trigger] old(out)@[i].rect.x + old(out)@[i].rect.w <= x0,
        forall|i: int| 0 <= i < old(out)@.len() ==> on_canvas(#[trigger] old(out)@[i].rect),
        all_apart(old(out)@),
    ensures
        final(out)@ == old(out)@ + grid_cells(keys@, x0 as int),
        forall|i: int| 0 <= i < final(out)@.len() ==> #[trigger] final(out)@[i].rect.x + final(out)@[i].rect.w <= x0 + cols * 56 - GAP,
        forall|i: int| 0 <= i < final(out)@.len() ==> on_canvas(#[trigger] final(out)@[i].rect),
        all_apart(final(out)@),
{
    let ghost start = out@;
    let base = out.len();
    let mut j: usize = 0;
    while j < keys.len()
        invariant
            valid_grid(keys@, cols as int),
            1 <= cols,
            x0 + cols * 56 - GAP <= CANVAS_W,
            j <= keys@.len(),
            base == start.len(),
            out@ == start + grid_cells(keys@, x0 as int).take(j as int),
            forall|i: int| 0 <= i < base ==> #[trigger] out@[i].rect.x + out@[i].rect.w <= x0,
            forall|i: int| 0 <= i < out@.len() ==> #[trigger] out@[i].rect.x + out@[i].rect.w <= x0 + cols * 56 - GAP,
            forall|i: int| 0 <= i < out@.len() ==> on_canvas(#[trigger] out@[i].rect),
            all_apart(out@),
        decreases keys@.len() - j,
    {
        let g = keys[j];
        assert(grid_key_fits(keys@[j as int], cols as int));
        let rect = Rect {
            x: x0 + (g.col - 1) * 56,
            y: KEY_Y0 + (g.row - 1) * ROW_STEP,
            w: g.col_span * 56 - GAP,
            h: g.row_span * ROW_STEP - GAP,
        };
        let cell = KeyCell { key_id: g.key_id, label: g.label, rect };
        assert(cell == grid_cells(keys@, x0 as int)[j as int]);
        let ghost prev = out@;
        out.push(cell);
        assert(grid_cells(keys@, x0 as int).take(j + 1) =~= grid_cells(keys@, x0 as int).take(j as int).push(cell));
        assert forall|a: int, b: int| 0 <= a < b < out@.len() implies apart(#[trigger] out@[a].rect, #[trigger] out@[b].rect) by {
            if b == prev.len() && a >= base {
                let ka = keys@[a - base];
                assert(out@[a] == grid_cells(keys@, x0 as int)[a - base]);
                assert(grid_apart(keys@[a - base], keys@[j as int]));
                grid_cells_apart(ka, g, x0 as int, cols as int);
            } else if b < prev.len() {
                assert(apart(prev[a].rect, prev[b].rect));
            }
        }
        j = j + 1;
    }
    assert(grid_cells(keys@, x0 as int).take(j as int) =~= grid_cells(keys@, x0 as int));
}

/// Appends the cells of main row `r` to cells that all lie above that row.
fn push_row_cells(out: &mut Vec<KeyCell>, row: &Vec<RowKey>, r: u32)
    requires
        valid_row(row@),
        r < 6,
        forall|i: int| 0 <= i < old(out)@.len() ==> #[trigger] old(out)@[i].rect.x + old(out)@[i].rect.w <= PAD + MAIN_W + GAP,
        forall|i: int| 0 <= i < old(out)@.len() ==> #[trigger] old(out)@[i].rect.y + old(out)@[i].rect.h + GAP <= KEY_Y0 + 48 * r,
        forall|i: int| 0 <= i < old(out)@.len() ==> on_canvas(#[trigger] old(out)@[i].rect),
        all_apart(old(out)@),
    ensures
        final(out)@ == old(out)@ + row_cells(row@, r as int),
        forall|i: int| 0 <= i < final(out)@.len() ==> #[trigger] final(out)@[i].rect.x + final(out)@[i].rect.w <= PAD + MAIN_W + GAP,
        forall|i: int| 0 <= i < final(out)@.len() ==> #[trigger] final(out)@[i].rect.y + final(out)@[i].rect.h + GAP <= KEY_Y0 + 48 * (r + 1),
        forall|i: int| 0 <= i < final(out)@.len() ==> on_canvas(#[trigger] final(out)@[i].rect),
        all_apart(final(out)@),
{
    let ghost start = out@;
    let y: u32 = KEY_Y0 + r * ROW_STEP;
    let mut x: u32 = PAD;
    let mut k: usize = 0;
    while k < row.len()
        invariant
            valid_row(row@),
            r < 6,
            y == KEY_Y0 + 48 * r,
            k <= row@.len(),
            x == PAD + 14 * quarter_sum(row@, k as int),
            out@ == start + row_cells(row@, r as int).take(k as int),
            forall|i: int| 0 <= i < start.len() ==> #[trigger] out@[i].rect.y + out@[i].rect.h + GAP <= y,
            forall|i: int| start.len() <= i < out@.len() ==> #[trigger] out@[i].rect.y == y
                && out@[i].rect.x + out@[i].rect.w + GAP <= x && out@[i].rect.h == KEY_H,
            forall|i: int| 0 <= i < out@.len() ==> #[trigger] out@[i].rect.x + out@[i].rect.w <= PAD + MAIN_W + GAP,
            forall|i: int| 0 <= i < out@.len() ==> on_canvas(#[trigger] out@[i].rect),
            all_apart(out@),
        decreases row@.len() - k,
    {
        let q = row[k].quarters;
        proof {
            quarter_sum_grows(row@, k + 1, row@.len() as int);
            assert(1 <= row@[k as int].quarters);
        }
        let rect = Rect { x, y, w: 14 * q - GAP, h: KEY_H };
        let cell = KeyCell { key_id: row[k].key_id, label: row[k].label, rect };
        assert(cell == row_cells(row@, r as int)[k as int]);
        let ghost prev = out@;
        out.push(cell);
        assert(row_cells(row@, r as int).take(k + 1) =~= row_cells(row@, r as int).take(k as int).push(cell));
        assert forall|a: int, b: int| 0 <= a < b < out@.len() implies apart(#[trigger] out@[a].rect, #[trigger] out@[b].rect) by {
            if b < prev.len() {
                assert(apart(prev[a].rect, prev[b].rect));
            }
        }
        x = x + 14 * q;
        k = k + 1;
    }
    assert(row_cells(row@, r as int).take(k as int) =~= row_cells(row@, r as int));
}

/// The cells of the heatmap for the given main rows, navigation keys and number pad
/// keys. No two cells share a pixel and every cell lies within the picture.
pub fn layout_cells(rows: &Vec<Vec<RowKey>>, nav: &Vec<GridKey>, pad: &Vec<GridKey>) -> (r: Vec<KeyCell>)
    requires
        valid_rows(rows@),
        valid_grid(nav@, 3),
        valid_grid(pad@, 4),
    ensures
        r@ == layout_spec(row_views(rows@), nav@, pad@),
        forall|i: int| 0 <= i < r@.len() ==> on_canvas(#[trigger] r@[i].rect),
        all_apart(r@),
{
    let mut out: Vec<KeyCell> = Vec::new();
    let mut r: usize = 0;
    while r < rows.len()
        invariant
            valid_rows(rows@),
            r <= rows@.len(),
            out@ == main_cells(row_views(rows@), r as int),
            forall|i: int| 0 <= i < out@.len() ==> #[trigger] out@[i].rect.x + out@[i].rect.w <= PAD + MAIN_W + GAP,
            forall|i: int| 0 <= i < out@.len() ==> #[trigger] out@[i].rect.y + out@[i].rect.h + GAP <= KEY_Y0 + 48 * r,
            forall|i: int| 0 <= i < out@.len() ==> on_canvas(#[trigger] out@[i].rect),
            all_apart(out@),
        decreases rows@.len() - r,
    {
        assert(valid_row(rows@[r as int]@));
        push_row_cells(&mut out, &rows[r], r as u32);
        r = r + 1;
    }
    push_grid_cells(&mut out, nav, NAV_X, 3);
    push_grid_cells(&mut out, pad, NUM_X, 4);
    out
}

/// The six rows of the main block: the keys, their labels and their widths in
/// quarter key units.
pub open spec fn keyboard_rows_spec() -> Seq<Seq<RowKey>> {
    seq![
        seq![
            RowKey { key_id: "esc", label: "Esc", quarters: 4 },
            RowKey { key_id: "f1", label: "F1", quarters: 4 },
            RowKey { key_id: "f2", label: "F2", quarters: 4 },
            RowKey { key_id: "f3", label: "F3", quarters: 4 },
            RowKey { key_id: "f4", label: "F4", quarters: 4 },
            RowKey { key_id: "f5", label: "F5", quarters: 4 },
            RowKey { key_id: "f6", label: "F6", quarters: 4 },
            RowKey { key_id: "f7", label: "F7", quarters: 4 },
            RowKey { key_id: "f8", label: "F8", quarters: 4 },
            RowKey { key_id: "f9", label: "F9", quarters: 4 },
            RowKey { key_id: "f10", label: "F10", quarters: 4 },
            RowKey { key_id: "f11", label: "F11", quarters: 4 },
            RowKey { key_id: "f12", label: "F12", quarters: 4 },
        ],
        seq![
            RowKey { key_id: "`", label: "`", quarters: 4 },
            RowKey { key_id: "1", label: "1", quarters: 4 },
            RowKey { key_id: "2", label: "2", quarters: 4 },
            RowKey { key_id: "3", label: "3", quarters: 4 },
            RowKey { key_id: "4", label: "4", quarters: 4 },
            RowKey { key_id: "5", label: "5", quarters: 4 },
            RowKey { key_id: "6", label: "6", quarters: 4 },
            RowKey { key_id: "7", label: "7", quarters: 4 },
            RowKey { key_id: "8", label: "8", quarters: 4 },
            RowKey { key_id: "9", label: "9", quarters: 4 },
            RowKey { key_id: "0", label: "0", quarters: 4 },
            RowKey { key_id: "-", label: "-", quarters: 4 },
            RowKey { key_id: "=", label: "=", quarters: 4 },
            RowKey { key_id: "backspace", label: "Backspace", quarters: 8 },
        ],
        seq![
            RowKey { key_id: "tab", label: "Tab", quarters: 6 },
            RowKey { key_id: "q", label: "Q", quarters: 4 },
            RowKey { key_id: "w", label: "W", quarters: 4 },
            RowKey { key_id: "e", label: "E", quarters: 4 },
            RowKey { key_id: "r", label: "R", quarters: 4 },
            RowKey { key_id: "t", label: "T", quarters: 4 },
            RowKey { key_id: "y", label: "Y", quarters: 4 },
            RowKey { key_id: "u", label: "U", quarters: 4 },
            RowKey { key_id: "i", label: "I", quarters: 4 },
            RowKey { key_id: "o", label: "O", quarters: 4 },
            RowKey { key_id: "p", label: "P", quarters: 4 },
            RowKey { key_id: "[", label: "[", quarters: 4 },
            RowKey { key_id: "]", label: "]", quarters: 4 },
            RowKey { key_id: "\\", label: "\\", quarters: 6 },
        ],
        seq![
            RowKey { key_id: "capslock", label: "Caps", quarters: 7 },
            RowKey { key_id: "a", label: "A", quarters: 4 },
            RowKey { key_id: "s", label: "S", quarters: 4 },
            RowKey { key_id: "d", label: "D", quarters: 4 },
            RowKey { key_id: "f", label: "F", quarters: 4 },
            RowKey { key_id: "g", label: "G", quarters: 4 },
            RowKey { key_id: "h", label: "H", quarters: 4 },
            RowKey { key_id: "j", label: "J", quarters: 4 },
            RowKey { key_id: "k", label: "K", quarters: 4 },
            RowKey { key_id: "l", label: "L", quarters: 4 },
            RowKey { key_id: ";", label: ";", quarters: 4 },
            RowKey { key_id: "'", label: "'", quarters: 4 },
            RowKey { key_id: "enter", label: "Enter", quarters: 9 },
        ],
        seq![
            RowKey { key_id: "shift", label: "Shift", quarters: 9 },
            RowKey { key_id: "z", label: "Z", quarters: 4 },
            RowKey { key_id: "x", label: "X", quarters: 4 },
            RowKey { key_id: "c", label: "C", quarters: 4 },
            RowKey { key_id: "v", label: "V", quarters: 4 },
            RowKey { key_id: "b", label: "B", quarters: 4 },
            RowKey { key_id: "n", label: "N", quarters: 4 },
            RowKey { key_id: "m", label: "M", quarters: 4 },
            RowKey { key_id: ",", label: ",", quarters: 4 },
            RowKey { key_id: ".", label: ".", quarters: 4 },
            RowKey { key_id: "/", label: "/", quarters: 4 },
            RowKey { key_id: "shift", label: "Shift", quarters: 11 },
        ],
        seq![
            RowKey { key_id: "ctrl", label: "Ctrl", quarters: 6 },
            RowKey { key_id: "meta", label: "Win", quarters: 5 },
            RowKey { key_id: "alt", label: "Alt", quarters: 5 },
            RowKey { key_id: "space", label: "Space", quarters: 25 },
            RowKey { key_id: "alt_gr", label: "AltGr", quarters: 5 },
            RowKey { key_id: "menu", label: "Menu", quarters: 5 },
            RowKey { key_id: "ctrl", label: "Ctrl", quarters: 6 },
        ],
    ]
}

/// The rows of a table as sequences.
pub open spec fn row_views(rows: Seq<Vec<RowKey>>) -> Seq<Seq<RowKey>> {
    rows.map_values(|v: Vec<RowKey>| v@)
}

/// The six rows of the main block, top to bottom, with key widths in quarter units.
pub fn keyboard_rows() -> (r: Vec<Vec<RowKey>>)
    ensures
        row_views(r@) == keyboard_rows_spec(),
        valid_rows(r@),
        r@.len() == 6,
        main_cells(keyboard_rows_spec(), 6).len() == 73,
{
    let r = vec![
        vec![
            RowKey { key_id: "esc", label: "Esc", quarters: 4 },
            RowKey { key_id: "f1", label: "F1", quarters: 4 },
            RowKey { key_id: "f2", label: "F2", quarters: 4 },
            RowKey { key_id: "f3", label: "F3", quarters: 4 },
            RowKey { key_id: "f4", label: "F4", quarters: 4 },
            RowKey { key_id: "f5", label: "F5", quarters: 4 },
            RowKey { key_id: "f6", label: "F6", quarters: 4 },
            RowKey { key_id: "f7", label: "F7", quarters: 4 },
            RowKey { key_id: "f8", label: "F8", quarters: 4 },
            RowKey { key_id: "f9", label: "F9", quarters: 4 },
            RowKey { key_id: "f10", label: "F10", quarters: 4 },
            RowKey { key_id: "f11", label: "F11", quarters: 4 },
            RowKey { key_id: "f12", label: "F12", quarters: 4 },
        ],
        vec![
            RowKey { key_id: "`", label: "`", quarters: 4 },
            RowKey { key_id: "1", label: "1", quarters: 4 },
            RowKey { key_id: "2", label: "2", quarters: 4 },
            RowKey { key_id: "3", label: "3", quarters: 4 },
            RowKey { key_id: "4", label: "4", quarters: 4 },
            RowKey { key_id: "5", label: "5", quarters: 4 },
            RowKey { key_id: "6", label: "6", quarters: 4 },
            RowKey { key_id: "7", label: "7", quarters: 4 },
            RowKey { key_id: "8", label: "8", quarters: 4 },
            RowKey { key_id: "9", label: "9", quarters: 4 },
            RowKey { key_id: "0", label: "0", quarters: 4 },
            RowKey { key_id: "-", label: "-", quarters: 4 },
            RowKey { key_id: "=", label: "=", quarters: 4 },
            RowKey { key_id: "backspace", label: "Backspace", quarters: 8 },
        ],
        vec![
            RowKey { key_id: "tab", label: "Tab", quarters: 6 },
            RowKey { key_id: "q", label: "Q", quarters: 4 },
            RowKey { key_id: "w", label: "W", quarters: 4 },
            RowKey { key_id: "e", label: "E", quarters: 4 },
            RowKey { key_id: "r", label: "R", quarters: 4 },
            RowKey { key_id: "t", label: "T", quarters: 4 },
            RowKey { key_id: "y", label: "Y", quarters: 4 },
            RowKey { key_id: "u", label: "U", quarters: 4 },
            RowKey { key_id: "i", label: "I", quarters: 4 },
            RowKey { key_id: "o", label: "O", quarters: 4 },
            RowKey { key_id: "p", label: "P", quarters: 4 },
            RowKey { key_id: "[", label: "[", quarters: 4 },
            RowKey { key_id: "]", label: "]", quarters: 4 },
            RowKey { key_id: "\\", label: "\\", quarters: 6 },
        ],
        vec![
            RowKey { key_id: "capslock", label: "Caps", quarters: 7 },
            RowKey { key_id: "a", label: "A", quarters: 4 },
            RowKey { key_id: "s", label: "S", quarters: 4 },
            RowKey { key_id: "d", label: "D", quarters: 4 },
            RowKey { key_id: "f", label: "F", quarters: 4 },
            RowKey { key_id: "g", label: "G", quarters: 4 },
            RowKey { key_id: "h", label: "H", quarters: 4 },
            RowKey { key_id: "j", label: "J", quarters: 4 },
            RowKey { key_id: "k", label: "K", quarters: 4 },
            RowKey { key_id: "l", label: "L", quarters: 4 },
            RowKey { key_id: ";", label: ";", quarters: 4 },
            RowKey { key_id: "'", label: "'", quarters: 4 },
            RowKey { key_id: "enter", label: "Enter", quarters: 9 },
        ],
        vec![
            RowKey { key_id: "shift", label: "Shift", quarters: 9 },
            RowKey { key_id: "z", label: "Z", quarters: 4 },
            RowKey { key_id: "x", label: "X", quarters: 4 },
            RowKey { key_id: "c", label: "C", quarters: 4 },
            RowKey { key_id: "v", label: "V", quarters: 4 },
            RowKey { key_id: "b", label: "B", quarters: 4 },
            RowKey { key_id: "n", label: "N", quarters: 4 },
            RowKey { key_id: "m", label: "M", quarters: 4 },
            RowKey { key_id: ",", label: ",", quarters: 4 },
            RowKey { key_id: ".", label: ".", quarters: 4 },
            RowKey { key_id: "/", label: "/", quarters: 4 },
            RowKey { key_id: "shift", label: "Shift", quarters: 11 },
        ],
        vec![
            RowKey { key_id: "ctrl", label: "Ctrl", quarters: 6 },
            RowKey { key_id: "meta", label: "Win", quarters: 5 },
            RowKey { key_id: "alt", label: "Alt", quarters: 5 },
            RowKey { key_id: "space", label: "Space", quarters: 25 },
            RowKey { key_id: "alt_gr", label: "AltGr", quarters: 5 },
            RowKey { key_id: "menu", label: "Menu", quarters: 5 },
            RowKey { key_id: "ctrl", label: "Ctrl", quarters: 6 },
        ],
    ];
    proof {
        reveal_with_fuel(quarter_sum, 15);
        reveal_with_fuel(main_cells, 7);
        assert(row_views(r@) =~= keyboard_rows_spec()) by {
            assert forall|i: int| 0 <= i < 6 implies #[trigger] row_views(r@)[i] =~= keyboard_rows_spec()[i] by {
                assert(0 <= i < 6);
            }
        }
        assert forall|i: int| 0 <= i < r@.len() implies valid_row(#[trigger] r@[i]@) by {
            assert(0 <= i < 6);
        }
    }
    r
}

/// The cells of the keyboard heatmap. No two cells share a pixel and every cell lies
/// within the picture.
pub fn heatmap_cells() -> (r: Vec<KeyCell>)
    ensures
        r@ == layout_spec(keyboard_rows_spec(), nav_keys_spec(), numpad_keys_spec()),
        r@.len() == 100,
        forall|i: int| 0 <= i < r@.len() ==> on_canvas(#[trigger] r@[i].rect),
        all_apart(r@),
{
    let rows = keyboard_rows();
    let nav = nav_keys();
    let pad = numpad_keys();
    layout_cells(&rows, &nav, &pad)
}

// ---------------------------------------------------------------- key names of the cells

/// ASCII lower-casing of a character.
pub open spec fn ascii_lower(c: char) -> char {
    if 'A' <= c <= 'Z' {
        ((c as u32) + 32) as char
    } else {
        c
    }
}

/// ASCII lower-casing of a text.
pub open spec fn lower_text(s: Seq<char>) -> Seq<char> {
    s.map_values(|c: char| ascii_lower(c))
}

/// A main-block key counts the key its label shows: its id is its label in lower case,
/// except the three keys whose labels are abbreviated (`Caps`, `Win`, `AltGr`).
pub open spec fn named_by_label(k: RowKey) -> bool {
    ||| k.key_id@ == lower_text(k.label@)
    ||| (k.label@ == "Caps"@ && k.key_id@ == "capslock"@)
    ||| (k.label@ == "Win"@ && k.key_id@ == "meta"@)
    ||| (k.label@ == "AltGr"@ && k.key_id@ == "alt_gr"@)
}

/// Every key of the main block counts the key its label shows, so the heatmap draws
/// each letter, digit and symbol key with that key's own count.
pub proof fn main_keys_named_by_label()
    ensures
        forall|r: int, k: int| 0 <= r < keyboard_rows_spec().len() && 0 <= k < keyboard_rows_spec()[r].len()
            ==> named_by_label(#[trigger] keyboard_rows_spec()[r][k]),
{
    reveal_strlit("'");
    reveal_strlit(",");
    reveal_strlit("-");
    reveal_strlit(".");
    reveal_strlit("/");
    reveal_strlit("0");
    reveal_strlit("1");
    reveal_strlit("2");
    reveal_strlit("3");
    reveal_strlit("4");
    reveal_strlit("5");
    reveal_strlit("6");
    reveal_strlit("7");
    reveal_strlit("8");
    reveal_strlit("9");
    reveal_strlit(";");
    reveal_strlit("=");
    reveal_strlit("A");
    reveal_strlit("Alt");
    reveal_strlit("AltGr");
    reveal_strlit("B");
    reveal_strlit("Backspace");
    reveal_strlit("C");
    reveal_strlit("Caps");
    reveal_strlit("Ctrl");
    reveal_strlit("D");
    reveal_strlit("E");
    reveal_strlit("Enter");
    reveal_strlit("Esc");
    reveal_strlit("F");
    reveal_strlit("F1");
    reveal_strlit("F10");
    reveal_strlit("F11");
    reveal_strlit("F12");
    reveal_strlit("F2");
    reveal_strlit("F3");
    reveal_strlit("F4");
    reveal_strlit("F5");
    reveal_strlit("F6");
    reveal_strlit("F7");
    reveal_strlit("F8");
    reveal_strlit("F9");
    reveal_strlit("G");
    reveal_strlit("H");
    reveal_strlit("I");
    reveal_strlit("J");
    reveal_strlit("K");
    reveal_strlit("L");
    reveal_strlit("M");
    reveal_strlit("Menu");
    reveal_strlit("N");
    reveal_strlit("O");
    reveal_strlit("P");
    reveal_strlit("Q");
    reveal_strlit("R");
    reveal_strlit("S");
    reveal_strlit("Shift");
    reveal_strlit("Space");
    reveal_strlit("T");
    reveal_strlit("Tab");
    reveal_strlit("U");
    reveal_strlit("V");
    reveal_strlit("W");
    reveal_strlit("Win");
    reveal_strlit("X");
    reveal_strlit("Y");
    reveal_strlit("Z");
    reveal_strlit("[");
    reveal_strlit("\\");
    reveal_strlit("]");
    reveal_strlit("`");
    reveal_strlit("a");
    reveal_strlit("alt");
    reveal_strlit("alt_gr");
    reveal_strlit("b");
    reveal_strlit("backspace");
    reveal_strlit("c");
    reveal_strlit("capslock");
    reveal_strlit("ctrl");
    reveal_strlit("d");
    reveal_strlit("e");
    reveal_strlit("enter");
    reveal_strlit("esc");
    reveal_strlit("f");
    reveal_strlit("f1");
    reveal_strlit("f10");
    reveal_strlit("f11");
    reveal_strlit("f12");
    reveal_strlit("f2");
    reveal_strlit("f3");
    reveal_strlit("f4");
    reveal_strlit("f5");
    reveal_strlit("f6");
    reveal_strlit("f7");
    reveal_strlit("f8");
    reveal_strlit("f9");
    reveal_strlit("g");
    reveal_strlit("h");
    reveal_strlit("i");
    reveal_strlit("j");
    reveal_strlit("k");
    reveal_strlit("l");
    reveal_strlit("m");
    reveal_strlit("menu");
    reveal_strlit("meta");
    reveal_strlit("n");
    reveal_strlit("o");
    reveal_strlit("p");
    reveal_strlit("q");
    reveal_strlit("r");
    reveal_strlit("s");
    reveal_strlit("shift");
    reveal_strlit("space");
    reveal_strlit("t");
    reveal_strlit("tab");
    reveal_strlit("u");
    reveal_strlit("v");
    reveal_strlit("w");
    reveal_strlit("x");
    reveal_strlit("y");
    reveal_strlit("z");
    assert(lower_text("Esc"@) =~= "esc"@);
    assert(lower_text("F1"@) =~= "f1"@);
    assert(lower_text("F2"@) =~= "f2"@);
    assert(lower_text("F3"@) =~= "f3"@);
    assert(lower_text("F4"@) =~= "f4"@);
    assert(lower_text("F5"@) =~= "f5"@);
    assert(lower_text("F6"@) =~= "f6"@);
    assert(lower_text("F7"@) =~= "f7"@);
    assert(lower_text("F8"@) =~= "f8"@);
    assert(lower_text("F9"@) =~= "f9"@);
    assert(lower_text("F10"@) =~= "f10"@);
    assert(lower_text("F11"@) =~= "f11"@);
    assert(lower_text("F12"@) =~= "f12"@);
    assert(lower_text("`"@) =~= "`"@);
    assert(lower_text("1"@) =~= "1"@);
    assert(lower_text("2"@) =~= "2"@);
    assert(lower_text("3"@) =~= "3"@);
    assert(lower_text("4"@) =~= "4"@);
    assert(lower_text("5"@) =~= "5"@);
    assert(lower_text("6"@) =~= "6"@);
    assert(lower_text("7"@) =~= "7"@);
    assert(lower_text("8"@) =~= "8"@);
    assert(lower_text("9"@) =~= "9"@);
    assert(lower_text("0"@) =~= "0"@);
    assert(lower_text("-"@) =~= "-"@);
    assert(lower_text("="@) =~= "="@);
    assert(lower_text("Backspace"@) =~= "backspace"@);
    assert(lower_text("Tab"@) =~= "tab"@);
    assert(lower_text("Q"@) =~= "q"@);
    assert(lower_text("W"@) =~= "w"@);
    assert(lower_text("E"@) =~= "e"@);
    assert(lower_text("R"@) =~= "r"@);
    assert(lower_text("T"@) =~= "t"@);
    assert(lower_text("Y"@) =~= "y"@);
    assert(lower_text("U"@) =~= "u"@);
    assert(lower_text("I"@) =~= "i"@);
    assert(lower_text("O"@) =~= "o"@);
    assert(lower_text("P"@) =~= "p"@);
    assert(lower_text("["@) =~= "["@);
    assert(lower_text("]"@) =~= "]"@);
    assert(lower_text("\\"@) =~= "\\"@);
    assert(lower_text("A"@) =~= "a"@);
    assert(lower_text("S"@) =~= "s"@);
    assert(lower_text("D"@) =~= "d"@);
    assert(lower_text("F"@) =~= "f"@);
    assert(lower_text("G"@) =~= "g"@);
    assert(lower_text("H"@) =~= "h"@);
    assert(lower_text("J"@) =~= "j"@);
    assert(lower_text("K"@) =~= "k"@);
    assert(lower_text("L"@) =~= "l"@);
    assert(lower_text(";"@) =~= ";"@);
    assert(lower_text("'"@) =~= "'"@);
    assert(lower_text("Enter"@) =~= "enter"@);
    assert(lower_text("Shift"@) =~= "shift"@);
    assert(lower_text("Z"@) =~= "z"@);
    assert(lower_text("X"@) =~= "x"@);
    assert(lower_text("C"@) =~= "c"@);
    assert(lower_text("V"@) =~= "v"@);
    assert(lower_text("B"@) =~= "b"@);
    assert(lower_text("N"@) =~= "n"@);
    assert(lower_text("M"@) =~= "m"@);
    assert(lower_text(","@) =~= ","@);
    assert(lower_text("."@) =~= "."@);
    assert(lower_text("/"@) =~= "/"@);
    assert(lower_text("Ctrl"@) =~= "ctrl"@);
    assert(lower_text("Alt"@) =~= "alt"@);
    assert(lower_text("Space"@) =~= "space"@);
    assert(lower_text("Menu"@) =~= "menu"@);
    let t = keyboard_rows_spec();
    assert forall|r: int, k: int| 0 <= r < t.len() && 0 <= k < t[r].len() implies named_by_label(#[trigger] t[r][k]) by {
        assert(0 <= r < 6);
        assert(0 <= k < 14);
    }
}

/// Every number-pad cell whose label is a digit counts the number-pad key of that digit,
/// under the name the key naming gives it.
pub proof fn numpad_digit_cells_count_their_key()
    ensures
        forall|i: int| 0 <= i < numpad_keys_spec().len() && (#[trigger] numpad_keys_spec()[i]).label@.len() == 1
            && '0' <= numpad_keys_spec()[i].label@[0] <= '9'
            ==> crate::keys::numpad_name_spec((0x60 + (numpad_keys_spec()[i].label@[0] as u32 - 48)) as u32)
                == Some(numpad_keys_spec()[i].key_id@),
{
    reveal_strlit("*");
    reveal_strlit("+");
    reveal_strlit("-");
    reveal_strlit(".");
    reveal_strlit("/");
    reveal_strlit("0");
    reveal_strlit("1");
    reveal_strlit("2");
    reveal_strlit("3");
    reveal_strlit("4");
    reveal_strlit("5");
    reveal_strlit("6");
    reveal_strlit("7");
    reveal_strlit("8");
    reveal_strlit("9");
    reveal_strlit("Enter");
    reveal_strlit("NumLk");
    reveal_strlit("enter");
    reveal_strlit("num_lock");
    reveal_strlit("numpad0");
    reveal_strlit("numpad1");
    reveal_strlit("numpad2");
    reveal_strlit("numpad3");
    reveal_strlit("numpad4");
    reveal_strlit("numpad5");
    reveal_strlit("numpad6");
    reveal_strlit("numpad7");
    reveal_strlit("numpad8");
    reveal_strlit("numpad9");
    reveal_strlit("numpad_add");
    reveal_strlit("numpad_decimal");
    reveal_strlit("numpad_divide");
    reveal_strlit("numpad_multiply");
    reveal_strlit("numpad_subtract");
    let t = numpad_keys_spec();
    assert forall|i: int| 0 <= i < t.len() && (#[trigger] t[i]).label@.len() == 1 && '0' <= t[i].label@[0] <= '9'
        implies crate::keys::numpad_name_spec((0x60 + (t[i].label@[0] as u32 - 48)) as u32) == Some(t[i].key_id@) by {
        assert(0 <= i < 17);
    }
}

/// The arrow cells of the navigation block count the arrow keys they show, under the
/// names the key naming gives those keys.
pub proof fn arrow_cells_count_their_key()
    ensures
        forall|i: int| 0 <= i < nav_keys_spec().len() ==> {
            let k = #[trigger] nav_keys_spec()[i];
            &&& k.label@ == "\u{2190}"@ ==> Some(k.key_id@) == crate::keys::special_name_spec(0x25)
            &&& k.label@ == "\u{2191}"@ ==> Some(k.key_id@) == crate::keys::special_name_spec(0x26)
            &&& k.label@ == "\u{2192}"@ ==> Some(k.key_id@) == crate::keys::special_name_spec(0x27)
            &&& k.label@ == "\u{2193}"@ ==> Some(k.key_id@) == crate::keys::special_name_spec(0x28)
        },
{
    reveal_strlit("Del");
    reveal_strlit("End");
    reveal_strlit("Home");
    reveal_strlit("Ins");
    reveal_strlit("PgDn");
    reveal_strlit("PgUp");
    reveal_strlit("\u{2190}");
    reveal_strlit("\u{2191}");
    reveal_strlit("\u{2192}");
    reveal_strlit("\u{2193}");
    reveal_strlit("delete");
    reveal_strlit("down");
    reveal_strlit("end");
    reveal_strlit("home");
    reveal_strlit("insert");
    reveal_strlit("left");
    reveal_strlit("page_down");
    reveal_strlit("page_up");
    reveal_strlit("right");
    reveal_strlit("up");
    let t = nav_keys_spec();
    assert forall|i: int| 0 <= i < t.len() implies {
        let k = #[trigger] t[i];
        &&& k.label@ == "\u{2190}"@ ==> Some(k.key_id@) == crate::keys::special_name_spec(0x25)
        &&& k.label@ == "\u{2191}"@ ==> Some(k.key_id@) == crate::keys::special_name_spec(0x26)
        &&& k.label@ == "\u{2192}"@ ==> Some(k.key_id@) == crate::keys::special_name_spec(0x27)
        &&& k.label@ == "\u{2193}"@ ==> Some(k.key_id@) == crate::keys::special_name_spec(0x28)
    } by {
        assert("\u{2190}"@ =~= seq!['\u{2190}']);
        assert("\u{2191}"@ =~= seq!['\u{2191}']);
        assert("\u{2192}"@ =~= seq!['\u{2192}']);
        assert("\u{2193}"@ =~= seq!['\u{2193}']);
        assert(crate::keys::special_name_spec(0x25) == Some("left"@));
        assert(crate::keys::special_name_spec(0x26) == Some("up"@));
        assert(crate::keys::special_name_spec(0x27) == Some("right"@));
        assert(crate::keys::special_name_spec(0x28) == Some("down"@));
        assert(t[i].label@.len() == 1 ==> 6 <= i < 10);
        assert("\u{2190}"@[0] != "\u{2191}"@[0]);
        assert("\u{2190}"@[0] != "\u{2192}"@[0]);
        assert("\u{2190}"@[0] != "\u{2193}"@[0]);
        assert("\u{2191}"@[0] != "\u{2192}"@[0]);
        assert("\u{2191}"@[0] != "\u{2193}"@[0]);
        assert("\u{2192}"@[0] != "\u{2193}"@[0]);
        assert(0 <= i < 10);
    }
}

} // verus!

//! What the low-level keyboard and mouse hooks record.
//!
//! The hook procedures themselves live with the operating system; here is the state
//! they keep between calls (pause flag, keys held down, last pointer sample) and the
//! decision, for each hook message, of whether and what to record.

use std::collections::HashSet;
use vstd::prelude::*;

verus! {

broadcast use vstd::std_specs::hash::group_hash_axioms;

/// Keyboard hook messages.
pub const WM_KEYDOWN: u32 = 0x0100;
pub const WM_KEYUP: u32 = 0x0101;
pub const WM_SYSKEYDOWN: u32 = 0x0104;
pub const WM_SYSKEYUP: u32 = 0x0105;

/// Mouse hook messages.
pub const WM_MOUSEMOVE: u32 = 0x0200;
pub const WM_LBUTTONDOWN: u32 = 0x0201;
pub const WM_RBUTTONDOWN: u32 = 0x0204;
pub const WM_MBUTTONDOWN: u32 = 0x0207;
pub const WM_MOUSEWHEEL: u32 = 0x020A;
pub const WM_XBUTTONDOWN: u32 = 0x020B;

/// Shortest and longest gap, in nanoseconds, between two pointer samples whose
/// distance is recorded as movement.
pub const MOVE_MIN_GAP_NS: u64 = 20_000_000;
pub const MOVE_MAX_GAP_NS: u64 = 5_000_000_000;

/// Squared distance, in pixels, below which a pointer move is not recorded (2 px).
pub const MOVE_MIN_SQUARED: u128 = 4;

/// The button of a click. The side buttons (X1, X2) are all counted as `side`.
#[derive(PartialEq, Eq, Structural, Clone, Copy, Debug)]
pub enum MouseButton {
    Left,
    Right,
    Middle,
    Side,
}

/// A mouse event to record.
#[derive(PartialEq, Eq, Structural, Clone, Copy, Debug)]
pub enum MouseRecord {
    Click { button: MouseButton, x: i32, y: i32 },
    /// `up` is what the wheel direction is stored as: a negative wheel delta.
    Scroll { up: bool, x: i32, y: i32 },
    /// The distance travelled since the previous sample, squared.
    Move { x: i32, y: i32, squared_distance: u128 },
}

/// The abstract hook state.
pub struct HookView {
    pub paused: bool,
    pub held: Set<u32>,
    pub last_move: Option<(i32, i32, u64)>,
}

/// State kept between hook calls.
pub struct HookState {
    paused: bool,
    held: HashSet<u32>,
    last_move: Option<(i32, i32, u64)>,
}

impl View for HookState {
    type V = HookView;

    closed spec fn view(&self) -> HookView {
        HookView { paused: self.paused, held: self.held@, last_move: self.last_move }
    }
}

/// Pausing and resuming: resuming forgets the keys held down and the last pointer sample.
pub open spec fn set_paused_spec(s: HookView, paused: bool) -> HookView {
    if paused {
        HookView { paused: true, ..s }
    } else {
        HookView { paused: false, held: Set::empty(), last_move: None }
    }
}

/// A key goes down: it is recorded when not paused and not already held
/// (auto-repeat is not counted); only then is it marked as held.
pub open spec fn key_down_spec(s: HookView, vk: u32) -> (HookView, bool) {
    if !s.paused && !s.held.contains(vk) {
        (HookView { held: s.held.insert(vk), ..s }, true)
    } else {
        (s, false)
    }
}

/// A key goes up: it is no longer held, paused or not.
pub open spec fn key_up_spec(s: HookView, vk: u32) -> HookView {
    HookView { held: s.held.remove(vk), ..s }
}

/// A keyboard hook call: the key to record, if any, and the new state.
pub open spec fn keyboard_spec(s: HookView, code: i32, msg: u32, vk: u32) -> (HookView, Option<u32>) {
    if code < 0 {
        (s, None)
    } else if msg == WM_KEYDOWN || msg == WM_SYSKEYDOWN {
        let (t, rec) = key_down_spec(s, vk);
        (t, if rec { Some(vk) } else { None })
    } else if msg == WM_KEYUP || msg == WM_SYSKEYUP {
        (key_up_spec(s, vk), None)
    } else {
        (s, None)
    }
}

/// Squared Euclidean distance between two points.
pub open spec fn squared_distance(x: i32, y: i32, lx: i32, ly: i32) -> int {
    (x - lx) * (x - lx) + (y - ly) * (y - ly)
}

/// Time from `earlier` to `now`, zero if the clock reads earlier.
pub open spec fn elapsed_ns(now: u64, earlier: u64) -> int {
    if now >= earlier { now - earlier } else { 0 }
}

/// A pointer sample: movement is recorded when there is a previous sample taken
/// 20 ms to 5 s before and at least 2 px away; the sample always becomes the new origin.
pub open spec fn mouse_move_spec(s: HookView, x: i32, y: i32, now: u64) -> (HookView, Option<MouseRecord>) {
    let t = HookView { last_move: Some((x, y, now)), ..s };
    match s.last_move {
        Some((lx, ly, lt)) => {
            let e = elapsed_ns(now, lt);
            let d2 = squared_distance(x, y, lx, ly);
            if MOVE_MIN_GAP_NS <= e <= MOVE_MAX_GAP_NS && d2 >= MOVE_MIN_SQUARED {
                (t, Some(MouseRecord::Move { x, y, squared_distance: d2 as u128 }))
            } else {
                (t, None)
            }
        },
        None => (t, None),
    }
}

/// The wheel direction stored for a wheel message: the high word of `mouseData`,
/// read as a signed 16-bit delta, is negative.
pub open spec fn wheel_up(mouse_data: u32) -> bool {
    (mouse_data >> 16u32) >= 0x8000
}

/// A mouse hook call: the event to record, if any, and the new state.
/// While counting is paused nothing is recorded and the state stays as it is.
pub open spec fn mouse_spec(
    s: HookView,
    code: i32,
    msg: u32,
    x: i32,
    y: i32,
    mouse_data: u32,
    now: u64,
) -> (HookView, Option<MouseRecord>) {
    if code < 0 || s.paused {
        (s, None)
    } else if msg == WM_LBUTTONDOWN {
        (s, Some(MouseRecord::Click { button: MouseButton::Left, x, y }))
    } else if msg == WM_RBUTTONDOWN {
        (s, Some(MouseRecord::Click { button: MouseButton::Right, x, y }))
    } else if msg == WM_MBUTTONDOWN {
        (s, Some(MouseRecord::Click { button: MouseButton::Middle, x, y }))
    } else if msg == WM_XBUTTONDOWN {
        (s, Some(MouseRecord::Click { button: MouseButton::Side, x, y }))
    } else if msg == WM_MOUSEWHEEL {
        (s, Some(MouseRecord::Scroll { up: wheel_up(mouse_data), x, y }))
    } else if msg == WM_MOUSEMOVE {
        mouse_move_spec(s, x, y, now)
    } else {
        (s, None)
    }
}

impl HookState {
    /// Not paused, no key held, no pointer sample yet.
    pub fn new() -> (r: HookState)
        ensures
            !r@.paused,
            r@.held == Set::<u32>::empty(),
            r@.last_move is None,
    {
        HookState { paused: false, held: HashSet::new(), last_move: None }
    }

    pub fn is_paused(&self) -> (r: bool)
        ensures
            r == self@.paused,
    {
        self.paused
    }

    /// Handles a key going down; returns whether to record it.
    pub fn key_down(&mut self, vk: u32) -> (r: bool)
        ensures
            (final(self)@, r) == key_down_spec(old(self)@, vk),
    {
        if !self.paused && self.held.insert(vk) {
            true
        } else {
            proof {
                if !self.paused {
                    assert(self.held@ =~= old(self).held@);
                }
            }
            false
        }
    }

    /// Handles a key going up.
    pub fn key_up(&mut self, vk: u32)
        ensures
            final(self)@ == key_up_spec(old(self)@, vk),
    {
        self.held.remove(&vk);
    }

    /// Handles one keyboard hook call; returns the virtual-key code to record, if any.
    pub fn on_keyboard(&mut self, code: i32, msg: u32, vk: u32) -> (r: Option<u32>)
        ensures
            (final(self)@, r) == keyboard_spec(old(self)@, code, msg, vk),
    {
        if code < 0 {
            return None;
        }
        if msg == WM_KEYDOWN || msg == WM_SYSKEYDOWN {
            if self.key_down(vk) {
                Some(vk)
            } else {
                None
            }
        } else if msg == WM_KEYUP || msg == WM_SYSKEYUP {
            self.key_up(vk);
            None
        } else {
            None
        }
    }

    /// Handles one pointer sample taken at `now` (nanoseconds on a monotonic clock).
    pub fn mouse_move(&mut self, x: i32, y: i32, now: u64) -> (r: Option<MouseRecord>)
        ensures
            (final(self)@, r) == mouse_move_spec(old(self)@, x, y, now),
    {
        let prev = self.last_move;
        self.last_move = Some((x, y, now));
        match prev {
            Some((lx, ly, lt)) => {
                let elapsed: u64 = if now >= lt { now - lt } else { 0 };
                let dx: i128 = x as i128 - lx as i128;
                let dy: i128 = y as i128 - ly as i128;
                assert(dx * dx <= 0x1_0000_0000_0000_0000) by (nonlinear_arith)
                    requires -0x1_0000_0000 <= dx <= 0x1_0000_0000;
                assert(dy * dy <= 0x1_0000_0000_0000_0000) by (nonlinear_arith)
                    requires -0x1_0000_0000 <= dy <= 0x1_0000_0000;
                assert(dx * dx >= 0) by (nonlinear_arith);
                assert(dy * dy >= 0) by (nonlinear_arith);
                let d2: i128 = dx * dx + dy * dy;
                if MOVE_MIN_GAP_NS <= elapsed && elapsed <= MOVE_MAX_GAP_NS && d2 >= 4 {
                    Some(MouseRecord::Move { x, y, squared_distance: d2 as u128 })
                } else {
                    None
                }
            },
            None => None,
        }
    }

    /// Handles one mouse hook call; returns the event to record, if any.
    pub fn on_mouse(
        &mut self,
        code: i32,
        msg: u32,
        x: i32,
        y: i32,
        mouse_data: u32,
        now: u64,
    ) -> (r: Option<MouseRecord>)
        ensures
            (final(self)@, r) == mouse_spec(old(self)@, code, msg, x, y, mouse_data, now),
    {
        if code < 0 || self.paused {
            None
        } else if msg == WM_LBUTTONDOWN {
            Some(MouseRecord::Click { button: MouseButton::Left, x, y })
        } else if msg == WM_RBUTTONDOWN {
            Some(MouseRecord::Click { button: MouseButton::Right, x, y })
        } else if msg == WM_MBUTTONDOWN {
            Some(MouseRecord::Click { button: MouseButton::Middle, x, y })
        } else if msg == WM_XBUTTONDOWN {
            Some(MouseRecord::Click { button: MouseButton::Side, x, y })
        } else if msg == WM_MOUSEWHEEL {
            Some(MouseRecord::Scroll { up: (mouse_data >> 16u32) >= 0x8000, x, y })
        } else if msg == WM_MOUSEMOVE {
            self.mouse_move(x, y, now)
        } else {
            None
        }
    }
}

/// Pauses or resumes counting.
pub fn set_paused(state: &mut HookState, paused: bool)
    ensures
        final(state)@ == set_paused_spec(old(state)@, paused),
{
    state.paused = paused;
    if !paused {
        state.last_move = None;
        state.held.clear();
    }
}

/// The name a click button is stored under.
pub fn button_name(b: MouseButton) -> (r: &'static str)
    ensures
        r@ == button_name_spec(b),
{
    match b {
        MouseButton::Left => "left",
        MouseButton::Right => "right",
        MouseButton::Middle => "middle",
        MouseButton::Side => "side",
    }
}

pub open spec fn button_name_spec(b: MouseButton) -> Seq<char> {
    match b {
        MouseButton::Left => "left"@,
        MouseButton::Right => "right"@,
        MouseButton::Middle => "middle"@,
        MouseButton::Side => "side"@,
    }
}

/// The name a wheel direction is stored under: `up` for a negative delta, `down` otherwise.
pub fn wheel_name(up: bool) -> (r: &'static str)
    ensures
        r@ == (if up { "up"@ } else { "down"@ }),
{
    if up { "up" } else { "down" }
}

/// How the hook thread is stopped: the id of the thread that runs the hooks'
/// message loop, if it came up.
pub struct HookStop {
    pub thread_id: Option<u32>,
}

impl HookStop {
    /// The thread to which a quit message is to be posted, if any.
    pub fn stop(&self) -> (r: Option<u32>)
        ensures
            r == self.thread_id,
    {
        self.thread_id
    }
}

// ---------------------------------------------------------------- laws

/// A key held down is counted once: after a press is recorded, a second press of the
/// same key with no release in between records nothing and changes nothing.
pub proof fn held_key_counts_once(s: HookView, vk: u32)
    requires
        key_down_spec(s, vk).1,
    ensures
        key_down_spec(key_down_spec(s, vk).0, vk) == (key_down_spec(s, vk).0, false),
{
}

/// Releasing a key lets the next press of it count again (when not paused).
pub proof fn release_then_press_counts(s: HookView, vk: u32)
    requires
        !s.paused,
    ensures
        key_down_spec(key_up_spec(s, vk), vk).1,
{
}

/// While paused no key is recorded and the key state does not change.
pub proof fn paused_records_no_key(s: HookView, code: i32, msg: u32, vk: u32)
    requires
        s.paused,
    ensures
        keyboard_spec(s, code, msg, vk).1 is None,
        (msg != WM_KEYUP && msg != WM_SYSKEYUP) ==> keyboard_spec(s, code, msg, vk).0 == s,
{
}

/// Resuming starts from a clean slate: no key is held and there is no pointer origin,
/// so the first key press after resuming is counted and the first pointer sample
/// records no movement.
pub proof fn resume_starts_clean(s: HookView, vk: u32, x: i32, y: i32, now: u64)
    ensures
        set_paused_spec(s, false).held == Set::<u32>::empty(),
        key_down_spec(set_paused_spec(s, false), vk).1,
        mouse_move_spec(set_paused_spec(s, false), x, y, now).1 is None,
{
}

/// Pausing or resuming twice is the same as doing it once.
pub proof fn set_paused_idempotent(s: HookView, p: bool)
    ensures
        set_paused_spec(set_paused_spec(s, p), p) == set_paused_spec(s, p),
{
}

/// While counting is paused the mouse hook records nothing: no click, no wheel turn,
/// no movement, and the state stays as it is.
pub proof fn paused_records_no_mouse(s: HookView, code: i32, msg: u32, x: i32, y: i32, d: u32, now: u64)
    requires
        s.paused,
    ensures
        mouse_spec(s, code, msg, x, y, d, now) == (s, Option::<MouseRecord>::None),
{
}

/// The mouse hook never changes the pause flag or the keys held.
pub proof fn mouse_keeps_pause_and_keys(s: HookView, code: i32, msg: u32, x: i32, y: i32, d: u32, now: u64)
    ensures
        mouse_spec(s, code, msg, x, y, d, now).0.paused == s.paused,
        mouse_spec(s, code, msg, x, y, d, now).0.held == s.held,
{
}

/// A recorded movement is at least 2 px long, and every pointer sample becomes the
/// origin of the next one.
pub proof fn move_records_only_real_moves(s: HookView, x: i32, y: i32, now: u64)
    ensures
        mouse_move_spec(s, x, y, now).0.last_move == Some((x, y, now)),
        mouse_move_spec(s, x, y, now).1 matches Some(MouseRecord::Move { squared_distance, .. })
            ==> squared_distance >= 4,
{
    if let Some((lx, ly, lt)) = s.last_move {
        squared_distance_fits(x, y, lx, ly);
    }
}

/// A squared distance between two `i32` points fits in a `u128`.
pub proof fn squared_distance_fits(x: i32, y: i32, lx: i32, ly: i32)
    ensures
        0 <= squared_distance(x, y, lx, ly) <= 0x2_0000_0000_0000_0000,
{
    let dx = x - lx;
    let dy = y - ly;
    assert(0 <= dx * dx <= 0x1_0000_0000_0000_0000) by (nonlinear_arith)
        requires -0x1_0000_0000 <= dx <= 0x1_0000_0000;
    assert(0 <= dy * dy <= 0x1_0000_0000_0000_0000) by (nonlinear_arith)
        requires -0x1_0000_0000 <= dy <= 0x1_0000_0000;
}

} // verus!

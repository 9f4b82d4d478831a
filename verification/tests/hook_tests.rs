use keycounter::hooks::{
    button_name, set_paused, HookState, HookStop, MouseButton, MouseRecord, WM_KEYDOWN, WM_KEYUP,
    WM_LBUTTONDOWN, WM_MBUTTONDOWN, WM_MOUSEMOVE, WM_RBUTTONDOWN, WM_SYSKEYDOWN, WM_SYSKEYUP,
    WM_XBUTTONDOWN,
};

const MS: u64 = 1_000_000;

#[test]
fn held_key_counts_once() {
    let mut s = HookState::new();
    assert_eq!(s.on_keyboard(0, WM_KEYDOWN, 0x41), Some(0x41));
    // auto-repeat while held
    assert_eq!(s.on_keyboard(0, WM_KEYDOWN, 0x41), None);
    assert_eq!(s.on_keyboard(0, WM_SYSKEYDOWN, 0x41), None);
    // another key is independent
    assert_eq!(s.on_keyboard(0, WM_SYSKEYDOWN, 0x42), Some(0x42));
    assert_eq!(s.on_keyboard(0, WM_KEYUP, 0x41), None);
    assert_eq!(s.on_keyboard(0, WM_KEYDOWN, 0x41), Some(0x41));
    assert_eq!(s.on_keyboard(0, WM_SYSKEYUP, 0x42), None);
    assert_eq!(s.on_keyboard(0, WM_KEYDOWN, 0x42), Some(0x42));
    // negative hook codes are passed on untouched
    assert_eq!(s.on_keyboard(-1, WM_KEYDOWN, 0x43), None);
    assert_eq!(s.on_keyboard(0, WM_KEYDOWN, 0x43), Some(0x43));
}

#[test]
fn pause_and_resume() {
    let mut s = HookState::new();
    assert_eq!(s.on_keyboard(0, WM_KEYDOWN, 0x41), Some(0x41));
    set_paused(&mut s, true);
    assert!(s.is_paused());
    assert_eq!(s.on_keyboard(0, WM_KEYDOWN, 0x42), None);
    // nothing from the mouse is recorded while paused either
    assert_eq!(s.on_mouse(0, WM_LBUTTONDOWN, 1, 2, 0, 0), None);
    assert_eq!(s.on_mouse(0, 0x020A, 1, 2, 0xFF88_0000, 0), None);
    set_paused(&mut s, false);
    assert_eq!(
        s.on_mouse(0, WM_LBUTTONDOWN, 1, 2, 0, 0),
        Some(MouseRecord::Click { button: MouseButton::Left, x: 1, y: 2 })
    );
    assert!(!s.is_paused());
    // resuming forgets held keys: A counts again without a release
    assert_eq!(s.on_keyboard(0, WM_KEYDOWN, 0x41), Some(0x41));
    assert_eq!(s.key_down(0x41), false);
    s.key_up(0x41);
    assert_eq!(s.key_down(0x41), true);
}

#[test]
fn buttons() {
    let mut s = HookState::new();
    let click = |s: &mut HookState, m| match s.on_mouse(0, m, 5, 6, 0, 0) {
        Some(MouseRecord::Click { button, .. }) => button_name(button),
        other => panic!("{:?}", other),
    };
    assert_eq!(click(&mut s, WM_LBUTTONDOWN), "left");
    assert_eq!(click(&mut s, WM_RBUTTONDOWN), "right");
    assert_eq!(click(&mut s, WM_MBUTTONDOWN), "middle");
    assert_eq!(click(&mut s, WM_XBUTTONDOWN), "side");
    assert_eq!(s.on_mouse(-1, WM_LBUTTONDOWN, 5, 6, 0, 0), None);
    assert_eq!(s.on_mouse(0, 0x0202, 5, 6, 0, 0), None);
}

#[test]
fn movement_threshold() {
    let mut s = HookState::new();
    // first sample: only an origin
    assert_eq!(s.on_mouse(0, WM_MOUSEMOVE, 0, 0, 0, 1000 * MS), None);
    // 3-4-5 triangle after 100 ms
    assert_eq!(
        s.on_mouse(0, WM_MOUSEMOVE, 3, 4, 0, 1100 * MS),
        Some(MouseRecord::Move { x: 3, y: 4, squared_distance: 25 })
    );
    // too soon (10 ms)
    assert_eq!(s.on_mouse(0, WM_MOUSEMOVE, 30, 40, 0, 1110 * MS), None);
    // exactly 20 ms later, exactly 2 px
    assert_eq!(
        s.on_mouse(0, WM_MOUSEMOVE, 32, 40, 0, 1130 * MS),
        Some(MouseRecord::Move { x: 32, y: 40, squared_distance: 4 })
    );
    // 1 px is too little
    assert_eq!(s.on_mouse(0, WM_MOUSEMOVE, 33, 40, 0, 1200 * MS), None);
    // more than 5 s later
    assert_eq!(s.on_mouse(0, WM_MOUSEMOVE, 100, 40, 0, 6201 * MS), None);
    // exactly 5 s later
    assert_eq!(
        s.on_mouse(0, WM_MOUSEMOVE, 100, 50, 0, 11201 * MS),
        Some(MouseRecord::Move { x: 100, y: 50, squared_distance: 100 })
    );
    // the clock going back counts as no time passing
    assert_eq!(s.on_mouse(0, WM_MOUSEMOVE, 200, 50, 0, 0), None);
    // resuming forgets the origin
    set_paused(&mut s, false);
    assert_eq!(s.on_mouse(0, WM_MOUSEMOVE, 300, 50, 0, 100 * MS), None);
    // extreme coordinates do not overflow
    assert_eq!(s.mouse_move(i32::MIN, i32::MIN, 200 * MS), Some(MouseRecord::Move {
        x: i32::MIN,
        y: i32::MIN,
        squared_distance: ((300i128 - i32::MIN as i128).pow(2) + (50i128 - i32::MIN as i128).pow(2)) as u128,
    }));
}

#[test]
fn hook_stop_target() {
    assert_eq!(HookStop { thread_id: Some(42) }.stop(), Some(42));
    assert_eq!(HookStop { thread_id: None }.stop(), None);
}

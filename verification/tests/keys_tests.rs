use keycounter::hooks::{wheel_name, HookState, MouseRecord, WM_MOUSEWHEEL};
use keycounter::keys::{normalize_char, normalize_vk_mapped, numpad_name, shift_to_base, special_name};

#[test]
fn shift_symbols_map_to_base() {
    assert_eq!(normalize_char('!'), Some("1".into()));
    assert_eq!(normalize_char('+'), Some("=".into()));
    assert_eq!(normalize_char(':'), Some(";".into()));
    assert_eq!(normalize_char('|'), Some("\\".into()));
}

#[test]
fn letters_are_uppercased() {
    assert_eq!(normalize_char('a'), Some("A".into()));
    assert_eq!(normalize_char('A'), Some("A".into()));
}

#[test]
fn plain_symbols_pass_through() {
    assert_eq!(normalize_char('1'), Some("1".into()));
    assert_eq!(normalize_char(';'), Some(";".into()));
}

#[test]
fn numpad_table() {
    // The keypad table comes before whatever character the layout maps the key to.
    assert_eq!(normalize_vk_mapped(0x61, 0), "numpad1");
    assert_eq!(normalize_vk_mapped(0x6A, '*' as u32), "numpad_multiply");
    assert_eq!(normalize_vk_mapped(0x6F, '/' as u32), "numpad_divide");
}

#[test]
fn special_names() {
    assert_eq!(special_name(0xA5), Some("alt"));
    assert_eq!(special_name(0xA2), Some("ctrl"));
    assert_eq!(special_name(0x14), Some("capslock"));
    assert_eq!(special_name(0x1B), Some("esc"));
    assert_eq!(special_name(0x5D), Some("menu"));
    assert_eq!(special_name(0x70), Some("f1"));
}

#[test]
fn wheel_direction_matches_python() {
    // delta < 0 is stored as "up", anything else as "down"
    let mut state = HookState::new();
    let delta_minus_one: u32 = ((-1i16) as u16 as u32) << 16;
    let delta_plus_one: u32 = (1u16 as u32) << 16;
    match state.on_mouse(0, WM_MOUSEWHEEL, 3, 4, delta_minus_one, 0) {
        Some(MouseRecord::Scroll { up, x, y }) => {
            assert_eq!(wheel_name(up), "up");
            assert_eq!((x, y), (3, 4));
        }
        other => panic!("unexpected {:?}", other),
    }
    match state.on_mouse(0, WM_MOUSEWHEEL, 3, 4, delta_plus_one, 0) {
        Some(MouseRecord::Scroll { up, .. }) => assert_eq!(wheel_name(up), "down"),
        other => panic!("unexpected {:?}", other),
    }
}

#[test]
fn other_characters_are_not_counted() {
    assert_eq!(normalize_char(' '), None);
    assert_eq!(normalize_char('\n'), None);
    assert_eq!(normalize_char('\u{7f}'), None);
}

#[test]
fn alphabetic_non_ascii_is_kept() {
    assert_eq!(normalize_char('é'), Some("é".into()));
    assert_eq!(normalize_char('京'), Some("京".into()));
}

#[test]
fn all_shift_pairs() {
    let pairs = [
        ('!', '1'), ('@', '2'), ('#', '3'), ('$', '4'), ('%', '5'), ('^', '6'), ('&', '7'),
        ('*', '8'), ('(', '9'), (')', '0'), ('~', '`'), ('_', '-'), ('+', '='), ('{', '['),
        ('}', ']'), (':', ';'), ('"', '\''), ('<', ','), ('>', '.'), ('?', '/'), ('|', '\\'),
    ];
    for (shifted, base) in pairs {
        assert_eq!(shift_to_base(shifted), Some(base));
        assert_eq!(normalize_char(shifted), Some(base.to_string()));
    }
    assert_eq!(shift_to_base('a'), None);
}

#[test]
fn normalizing_a_name_again_keeps_it() {
    for c in ['a', 'Z', '!', '5', '~', 'é', '"', 'q'] {
        let once = normalize_char(c).unwrap();
        let ch = once.chars().next().unwrap();
        assert_eq!(once.chars().count(), 1);
        assert_eq!(normalize_char(ch), Some(once.clone()));
    }
}

#[test]
fn vk_names_follow_precedence() {
    // character first
    assert_eq!(normalize_vk_mapped(0x41, 'a' as u32), "A");
    assert_eq!(normalize_vk_mapped(0x31, '1' as u32), "1");
    // the high half of the mapped value is ignored
    assert_eq!(normalize_vk_mapped(0x41, 0x8000_0061), "A");
    // no character: special table
    assert_eq!(normalize_vk_mapped(0x0D, 0), "enter");
    assert_eq!(normalize_vk_mapped(0x87, 0), "f24");
    assert_eq!(normalize_vk_mapped(0x7F, 0), "f16");
    // a non-printing character falls through to the special table
    assert_eq!(normalize_vk_mapped(0x0D, 0x0D), "enter");
    assert_eq!(normalize_vk_mapped(0x20, ' ' as u32), "space");
    // nothing known: vk_ and two hex digits or more
    assert_eq!(normalize_vk_mapped(0x07, 0), "vk_07");
    assert_eq!(normalize_vk_mapped(0xFF, 0), "vk_FF");
    assert_eq!(normalize_vk_mapped(0x1AB, 0), "vk_1AB");
    assert_eq!(normalize_vk_mapped(0xE8, 0xD800), "vk_E8");
}

#[test]
fn numpad_names() {
    assert_eq!(numpad_name(0x60), Some("numpad0"));
    assert_eq!(numpad_name(0x6B), Some("numpad_add"));
    assert_eq!(numpad_name(0x6C), None);
    assert_eq!(special_name(0x5B), Some("meta"));
    assert_eq!(special_name(0x5C), Some("meta"));
    assert_eq!(special_name(0xA1), Some("shift"));
    assert_eq!(special_name(0x41), None);
}

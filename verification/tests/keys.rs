use linux_drm::event;
use linux_drm::keys::{
    chars_from_keycode, KeyCode, KEY_BRIGHTNESS_ZERO, KEY_COFFEE, KEY_DASHBOARD, KEY_DIRECTION,
    KEY_WIMAX,
};

#[test]
fn codes_of_some_keys() {
    assert_eq!(KeyCode::KEY_RESERVED.code(), 0);
    assert_eq!(KeyCode::KEY_ESC.code(), 1);
    assert_eq!(KeyCode::KEY_KPDOT.code(), 83);
    assert_eq!(KeyCode::KEY_ZENKAKUHANKAKU.code(), 85);
    assert_eq!(KeyCode::KEY_F24.code(), 194);
    assert_eq!(KeyCode::KEY_PLAYCD.code(), 200);
    assert_eq!(KeyCode::KEY_UNKNOWN.code(), 240);
    assert_eq!(KeyCode::KEY_MICMUTE.code(), 248);
}

#[test]
fn codes_of_keys_with_two_names() {
    assert_eq!(KEY_COFFEE.code(), 152);
    assert_eq!(KEY_DIRECTION.code(), 153);
    assert_eq!(KEY_DASHBOARD.code(), 204);
    assert_eq!(KEY_BRIGHTNESS_ZERO.code(), 244);
    assert_eq!(KEY_WIMAX.code(), 246);
}

#[test]
fn every_assigned_code_round_trips() {
    let mut assigned = 0;
    for code in 0..=u16::MAX {
        match KeyCode::from_code(code) {
            Some(key) => {
                assert_eq!(key.code(), code);
                assigned += 1;
            }
            None => assert!(code == 84 || (195..=199).contains(&code) || code >= 249),
        }
    }
    assert_eq!(assigned, 243);
}

#[test]
fn unassigned_codes_have_no_key() {
    for code in [84, 195, 196, 197, 198, 199, 249, 255, 256, 0x110, u16::MAX] {
        assert_eq!(KeyCode::from_code(code), None);
    }
}

#[test]
fn keys_are_ordered_by_code() {
    assert!(KeyCode::KEY_ESC < KeyCode::KEY_1);
    assert!(KeyCode::KEY_KPDOT < KeyCode::KEY_ZENKAKUHANKAKU);
    assert!(KeyCode::KEY_RFKILL < KeyCode::KEY_MICMUTE);
}

#[test]
fn window_keys_of_some_keys() {
    let cases = [
        (KeyCode::KEY_ESC, event::KeyCode::Escape),
        (KeyCode::KEY_0, event::KeyCode::Key0),
        (KeyCode::KEY_DOT, event::KeyCode::Period),
        (KeyCode::KEY_LEFTBRACE, event::KeyCode::LeftBracket),
        (KeyCode::KEY_GRAVE, event::KeyCode::GraveAccent),
        (KeyCode::KEY_KPASTERISK, event::KeyCode::KpMultiply),
        (KeyCode::KEY_KPSLASH, event::KeyCode::KpDivide),
        (KeyCode::KEY_KPDOT, event::KeyCode::KpDecimal),
        (KeyCode::KEY_F11, event::KeyCode::F11),
        (KeyCode::KEY_F24, event::KeyCode::F24),
        (KeyCode::KEY_LEFTMETA, event::KeyCode::LeftSuper),
        (KeyCode::KEY_RIGHTMETA, event::KeyCode::RightSuper),
        (KeyCode::KEY_PAUSE, event::KeyCode::Pause),
        (KeyCode::KEY_MENU, event::KeyCode::Menu),
        (KeyCode::KEY_UNKNOWN, event::KeyCode::Unknown),
    ];
    for (key, window_key) in cases {
        assert_eq!(key.to_macroquad_keycode(), Some(window_key));
    }
    for key in [KeyCode::KEY_RESERVED, KeyCode::KEY_PRINT, KeyCode::KEY_SYSRQ, KeyCode::KEY_POWER] {
        assert_eq!(key.to_macroquad_keycode(), None);
    }
}

#[test]
fn window_keys_are_distinct() {
    let mut seen: Vec<event::KeyCode> = Vec::new();
    for code in 0..=248 {
        if let Some(key) = KeyCode::from_code(code) {
            if let Some(window_key) = key.to_macroquad_keycode() {
                assert!(!seen.contains(&window_key));
                seen.push(window_key);
            }
        }
    }
    assert_eq!(seen.len(), 117);
}

#[test]
fn characters_of_some_keys() {
    assert_eq!(chars_from_keycode(KeyCode::KEY_1), Some(('1', '!')));
    assert_eq!(chars_from_keycode(KeyCode::KEY_0), Some(('0', ')')));
    assert_eq!(chars_from_keycode(KeyCode::KEY_A), Some(('a', 'A')));
    assert_eq!(chars_from_keycode(KeyCode::KEY_APOSTROPHE), Some(('\'', '"')));
    assert_eq!(chars_from_keycode(KeyCode::KEY_BACKSLASH), Some(('\\', '|')));
    assert_eq!(chars_from_keycode(KeyCode::KEY_KPPLUS), Some(('=', '+')));
    assert_eq!(chars_from_keycode(KeyCode::KEY_KPASTERISK), Some(('*', '*')));
    assert_eq!(chars_from_keycode(KeyCode::KEY_KPDOT), Some(('.', '>')));
    assert_eq!(chars_from_keycode(KeyCode::KEY_TAB), Some(('\t', '\t')));
    assert_eq!(chars_from_keycode(KeyCode::KEY_SPACE), Some((' ', ' ')));
    assert_eq!(chars_from_keycode(KeyCode::KEY_ENTER), None);
    assert_eq!(chars_from_keycode(KeyCode::KEY_KPSLASH), None);
    assert_eq!(chars_from_keycode(KeyCode::KEY_102ND), None);
}

#[test]
fn shift_capitalises_and_typing_keys_have_window_keys() {
    let mut letters = 0;
    for code in 0..=248 {
        if let Some(key) = KeyCode::from_code(code) {
            if let Some((plain, shifted)) = chars_from_keycode(key) {
                assert!(key.to_macroquad_keycode().is_some());
                if plain.is_ascii_lowercase() {
                    assert_eq!(shifted, plain.to_ascii_uppercase());
                    letters += 1;
                }
            }
        }
    }
    assert_eq!(letters, 26);
}

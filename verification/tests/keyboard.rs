use linux_drm::event;
use linux_drm::event::KeyMods;
use linux_drm::input::{InputEvent, KeyAction};
use linux_drm::keyboard::{shortmods, Keyboard, KeyboardOutput, KeyboardRepeat};
use linux_drm::keys::KeyCode;

fn key(keycode: KeyCode, action: KeyAction) -> InputEvent {
    InputEvent { type_: 1, code: keycode.code(), value: action.value() }
}

fn mods(text: &str) -> KeyMods {
    KeyMods {
        shift: text.contains('S'),
        ctrl: text.contains('C'),
        alt: text.contains('A'),
        logo: text.contains('M'),
    }
}

fn with_mods(text: &str) -> Keyboard {
    Keyboard { key_mods: mods(text), ..Keyboard::default() }
}

#[test]
fn new_keyboards() {
    let repeat = KeyboardRepeat { delay: 250, period: 33 };
    let named = Keyboard::new(Some("board".to_string()), "/dev/input/event3".to_string(), repeat, 7);
    assert_eq!(named.name, "board");
    assert_eq!(named.path, "/dev/input/event3");
    assert_eq!(named.default_kbd_repeat, repeat);
    assert_eq!(named.fd, 7);
    assert_eq!(named.key_mods, KeyMods::default());
    assert_eq!(Keyboard::new(None, String::new(), repeat, 7).name, "");
    assert_eq!(Keyboard::default().fd, 0);
}

#[test]
fn typing_a_letter() {
    let mut keyboard = Keyboard::default();
    let batch = keyboard.handle_events(&[key(KeyCode::KEY_A, KeyAction::Down)]);
    assert!(!batch.quit);
    assert_eq!(
        batch.outputs,
        vec![
            KeyboardOutput::Char { character: 'a', mods: mods(""), repeat: false },
            KeyboardOutput::Trace { mods: mods(""), action: KeyAction::Down, key: KeyCode::KEY_A },
            KeyboardOutput::KeyDown { keycode: event::KeyCode::A, mods: mods(""), repeat: false },
        ]
    );
}

#[test]
fn shift_gives_capitals_until_released() {
    let mut keyboard = Keyboard::default();
    let batch = keyboard.handle_events(&[
        key(KeyCode::KEY_RIGHTSHIFT, KeyAction::Down),
        key(KeyCode::KEY_2, KeyAction::Down),
        key(KeyCode::KEY_RIGHTSHIFT, KeyAction::Up),
        key(KeyCode::KEY_2, KeyAction::Repeat),
    ]);
    let chars: Vec<KeyboardOutput> = batch
        .outputs
        .into_iter()
        .filter(|output| matches!(output, KeyboardOutput::Char { .. }))
        .collect();
    assert_eq!(
        chars,
        vec![
            KeyboardOutput::Char { character: '@', mods: mods("S"), repeat: false },
            KeyboardOutput::Char { character: '2', mods: mods(""), repeat: true },
        ]
    );
    assert_eq!(keyboard.key_mods, mods(""));
}

#[test]
fn releasing_a_key_types_nothing() {
    let mut keyboard = Keyboard::default();
    let batch = keyboard.handle_events(&[key(KeyCode::KEY_A, KeyAction::Up)]);
    assert_eq!(
        batch.outputs,
        vec![
            KeyboardOutput::Trace { mods: mods(""), action: KeyAction::Up, key: KeyCode::KEY_A },
            KeyboardOutput::KeyUp { keycode: event::KeyCode::A, mods: mods("") },
        ]
    );
}

#[test]
fn a_repeated_key_goes_up_and_down() {
    let mut keyboard = with_mods("C");
    let batch = keyboard.handle_events(&[key(KeyCode::KEY_ENTER, KeyAction::Repeat)]);
    assert_eq!(
        batch.outputs,
        vec![
            KeyboardOutput::Trace {
                mods: mods("C"),
                action: KeyAction::Repeat,
                key: KeyCode::KEY_ENTER
            },
            KeyboardOutput::KeyUp { keycode: event::KeyCode::Enter, mods: mods("C") },
            KeyboardOutput::KeyDown {
                keycode: event::KeyCode::Enter,
                mods: mods("C"),
                repeat: false
            },
        ]
    );
}

#[test]
fn a_repeated_modifier_changes_nothing() {
    let mut keyboard = Keyboard::default();
    keyboard.handle_events(&[key(KeyCode::KEY_LEFTALT, KeyAction::Repeat)]);
    assert_eq!(keyboard.key_mods, mods(""));
}

#[test]
fn the_last_press_or_release_decides() {
    let mut keyboard = Keyboard::default();
    keyboard.handle_events(&[
        key(KeyCode::KEY_LEFTSHIFT, KeyAction::Down),
        key(KeyCode::KEY_RIGHTSHIFT, KeyAction::Down),
        key(KeyCode::KEY_LEFTSHIFT, KeyAction::Up),
        key(KeyCode::KEY_LEFTMETA, KeyAction::Up),
        key(KeyCode::KEY_RIGHTMETA, KeyAction::Down),
        key(KeyCode::KEY_RIGHTALT, KeyAction::Down),
        key(KeyCode::KEY_LEFTCTRL, KeyAction::Down),
    ]);
    assert_eq!(keyboard.key_mods, mods("MAC"));
}

#[test]
fn a_modifier_is_reported_as_held_when_pressed() {
    let mut keyboard = Keyboard::default();
    let mut outputs = Vec::new();
    assert!(!keyboard.handle_event(&key(KeyCode::KEY_LEFTCTRL, KeyAction::Down), &mut outputs));
    assert_eq!(
        outputs[1],
        KeyboardOutput::KeyDown {
            keycode: event::KeyCode::LeftControl,
            mods: mods("C"),
            repeat: false
        }
    );
}

#[test]
fn keys_without_a_window_key_are_only_traced() {
    let mut keyboard = Keyboard::default();
    let batch = keyboard.handle_events(&[key(KeyCode::KEY_MUTE, KeyAction::Down)]);
    assert_eq!(
        batch.outputs,
        vec![KeyboardOutput::Trace {
            mods: mods(""),
            action: KeyAction::Down,
            key: KeyCode::KEY_MUTE
        }]
    );
}

#[test]
fn unknown_keys_reach_the_handler() {
    let mut keyboard = Keyboard::default();
    let batch = keyboard.handle_events(&[InputEvent { type_: 1, code: 500, value: 1 }]);
    assert_eq!(batch.outputs.len(), 2);
    assert_eq!(
        batch.outputs[1],
        KeyboardOutput::KeyDown {
            keycode: event::KeyCode::Unknown,
            mods: mods(""),
            repeat: false
        }
    );
}

#[test]
fn events_of_other_kinds_do_nothing() {
    let mut keyboard = with_mods("S");
    let batch = keyboard.handle_events(&[
        InputEvent { type_: 0, code: 0, value: 0 },
        InputEvent { type_: 4, code: 4, value: 458756 },
        InputEvent { type_: 1, code: 42, value: 7 },
    ]);
    assert!(batch.outputs.is_empty());
    assert_eq!(keyboard.key_mods, mods("S"));
}

#[test]
fn escape_with_every_modifier_quits() {
    let mut keyboard = with_mods("ASCM");
    let batch = keyboard.handle_events(&[
        key(KeyCode::KEY_A, KeyAction::Up),
        key(KeyCode::KEY_ESC, KeyAction::Down),
        key(KeyCode::KEY_LEFTSHIFT, KeyAction::Up),
    ]);
    assert!(batch.quit);
    assert_eq!(keyboard.key_mods, mods("ASCM"));
    assert_eq!(
        batch.outputs.last(),
        Some(&KeyboardOutput::Trace {
            mods: mods("ASCM"),
            action: KeyAction::Down,
            key: KeyCode::KEY_ESC
        })
    );
}

#[test]
fn escape_alone_does_not_quit() {
    for held in ["", "SCM", "ACM", "ASM", "ASC"] {
        let mut keyboard = with_mods(held);
        let batch = keyboard.handle_events(&[key(KeyCode::KEY_ESC, KeyAction::Down)]);
        assert!(!batch.quit);
        assert_eq!(
            batch.outputs.last(),
            Some(&KeyboardOutput::KeyDown {
                keycode: event::KeyCode::Escape,
                mods: mods(held),
                repeat: false
            })
        );
    }
    let mut keyboard = with_mods("ASCM");
    assert!(!keyboard.handle_events(&[key(KeyCode::KEY_ESC, KeyAction::Repeat)]).quit);
}

#[test]
fn batches_can_be_divided() {
    let events = [
        key(KeyCode::KEY_LEFTSHIFT, KeyAction::Down),
        key(KeyCode::KEY_Z, KeyAction::Down),
        key(KeyCode::KEY_LEFTSHIFT, KeyAction::Up),
        key(KeyCode::KEY_Z, KeyAction::Repeat),
    ];
    for cut in 0..=events.len() {
        let mut whole = Keyboard::default();
        let all = whole.handle_events(&events).outputs;
        let mut parts = Keyboard::default();
        let mut outputs = parts.handle_events(&events[..cut]).outputs;
        outputs.extend(parts.handle_events(&events[cut..]).outputs);
        assert_eq!(outputs, all);
        assert_eq!(parts.key_mods, whole.key_mods);
    }
}

#[test]
fn short_names_of_modifiers() {
    assert_eq!(shortmods(mods("")), "");
    assert_eq!(shortmods(mods("MCSA")), "ASCM");
    assert_eq!(shortmods(mods("CS")), "SC");
    assert_eq!(shortmods(mods("M")), "M");
}

use linux_drm::input::{
    key_from_event, read_input_events, AbsAxis, EventType, InputEvent, KeyAction, EVIOCGABS,
};
use linux_drm::keys::KeyCode;

fn event(type_: u16, code: u16, value: i32) -> InputEvent {
    InputEvent { type_, code, value }
}

#[test]
fn event_type_codes() {
    assert_eq!(EventType::EV_SYN.code(), 0);
    assert_eq!(EventType::EV_KEY.code(), 1);
    assert_eq!(EventType::EV_ABS.code(), 3);
    assert_eq!(EventType::EV_LED.code(), 0x11);
    assert_eq!(EventType::EV_MAX.code(), 0x1f);
    assert_eq!(EventType::EV_CNT.code(), 0x20);
}

#[test]
fn axis_requests() {
    assert_eq!(EVIOCGABS(AbsAxis::ABS_X), 0x80184540);
    assert_eq!(EVIOCGABS(AbsAxis::ABS_Y), 0x80184541);
    assert_eq!(EVIOCGABS(AbsAxis::ABS_MT_POSITION_Y), 0x80184576);
}

#[test]
fn key_events_report_key_and_action() {
    assert_eq!(key_from_event(&event(1, 30, 1)), Some((KeyCode::KEY_A, KeyAction::Down)));
    assert_eq!(key_from_event(&event(1, 30, 0)), Some((KeyCode::KEY_A, KeyAction::Up)));
    assert_eq!(key_from_event(&event(1, 30, 2)), Some((KeyCode::KEY_A, KeyAction::Repeat)));
}

#[test]
fn unassigned_key_is_unknown() {
    assert_eq!(key_from_event(&event(1, 84, 1)), Some((KeyCode::KEY_UNKNOWN, KeyAction::Down)));
    assert_eq!(key_from_event(&event(1, 0x110, 0)), Some((KeyCode::KEY_UNKNOWN, KeyAction::Up)));
}

#[test]
fn other_events_report_no_key() {
    assert_eq!(key_from_event(&event(0, 0, 0)), None);
    assert_eq!(key_from_event(&event(3, 30, 1)), None);
    assert_eq!(key_from_event(&event(1, 30, 3)), None);
    assert_eq!(key_from_event(&event(1, 30, -1)), None);
}

#[test]
fn action_values() {
    for action in [KeyAction::Up, KeyAction::Down, KeyAction::Repeat] {
        assert_eq!(key_from_event(&event(1, 1, action.value())), Some((KeyCode::KEY_ESC, action)));
    }
}

#[test]
fn completed_reads() {
    let buf = [event(1, 1, 1), event(1, 2, 1), event(1, 3, 1)];
    assert_eq!(read_input_events(0, 0, 24, &buf), Ok(&buf[..0]));
    assert_eq!(read_input_events(48, 5, 24, &buf), Ok(&buf[..2]));
    assert_eq!(read_input_events(71, 0, 24, &buf), Ok(&buf[..2]));
    assert_eq!(read_input_events(72, 0, 24, &buf), Ok(&buf[..]));
    assert_eq!(read_input_events(-1, 11, 24, &buf), Err(11));
}

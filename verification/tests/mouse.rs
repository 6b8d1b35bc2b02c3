use linux_drm::event;
use linux_drm::input::InputEvent;
use linux_drm::mouse::{
    button_from_event, mouse_batch, ButtonChange, InputAbsinfo, MouseButton, TouchSpan,
};

fn abs(code: u16, value: i32) -> InputEvent {
    InputEvent { type_: 3, code, value }
}

fn button(code: u16, value: i32) -> InputEvent {
    InputEvent { type_: 1, code, value }
}

#[test]
fn button_codes() {
    assert_eq!(MouseButton::BTN_0.code(), 0x100);
    assert_eq!(MouseButton::BTN_LEFT.code(), 0x110);
    assert_eq!(MouseButton::BTN_TASK.code(), 0x117);
    assert_eq!(MouseButton::BTN_DEAD.code(), 0x12f);
    assert_eq!(MouseButton::BTN_TOUCH.code(), 0x14a);
    assert_eq!(MouseButton::BTN_GEAR_UP.code(), 0x151);
}

#[test]
fn default_axis_range() {
    let info = InputAbsinfo::default();
    assert_eq!((info.value, info.minimum, info.maximum), (0, 0, 0));
    assert_eq!((info.fuzz, info.flat, info.resolution), (0, 0, 0));
}

#[test]
fn spans_run_from_first_to_last_position() {
    let batch = mouse_batch(&[abs(0, 10), abs(1, 5), abs(0, -7), abs(0, 30), abs(0x35, 99)]);
    assert_eq!(batch.touch_x, Some(TouchSpan { start: 10, stop: 30 }));
    assert_eq!(batch.touch_y, Some(TouchSpan { start: 5, stop: 5 }));
    assert!(batch.buttons.is_empty());
}

#[test]
fn no_position_no_span() {
    let batch = mouse_batch(&[abs(2, 1), button(0, 3), InputEvent { type_: 2, code: 0, value: 4 }]);
    assert_eq!(batch.touch_x, None);
    assert_eq!(batch.touch_y, None);
    let empty = mouse_batch(&[]);
    assert_eq!((empty.touch_x, empty.touch_y), (None, None));
}

#[test]
fn buttons_in_order() {
    let batch = mouse_batch(&[
        button(0x110, 1),
        abs(0, 1),
        button(0x111, 0),
        button(0x14a, 1),
        button(0x112, 2),
        abs(0x110, 1),
    ]);
    assert_eq!(
        batch.buttons,
        vec![
            ButtonChange { button: event::MouseButton::Left, pressed: true },
            ButtonChange { button: event::MouseButton::Right, pressed: false },
            ButtonChange { button: event::MouseButton::Middle, pressed: true },
        ]
    );
}

#[test]
fn only_three_buttons_are_known() {
    assert_eq!(
        button_from_event(&button(0x111, -1)),
        Some(ButtonChange { button: event::MouseButton::Right, pressed: true })
    );
    assert_eq!(button_from_event(&button(0x113, 1)), None);
    assert_eq!(button_from_event(&abs(0x110, 1)), None);
}

#[test]
fn mouse_batches_join() {
    let events = [abs(0, 4), button(0x110, 1), abs(0, 8), abs(1, 2), button(0x110, 0), abs(1, 1)];
    let whole = mouse_batch(&events);
    let first = mouse_batch(&events[..3]);
    let second = mouse_batch(&events[3..]);
    assert_eq!(first.touch_x, whole.touch_x);
    assert_eq!(second.touch_y, whole.touch_y);
    let mut buttons = first.buttons;
    buttons.extend(second.buttons);
    assert_eq!(buttons, whole.buttons);
}

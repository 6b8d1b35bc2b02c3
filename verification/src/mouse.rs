//! Pointing devices: touch movement and buttons.

use vstd::prelude::*;

use crate::event;
use crate::input::{AbsAxis, EventType, InputEvent};

verus! {

/// The range of an absolute axis, as a device reports it.
#[derive(Debug, Copy, Clone, PartialEq, Eq, Structural)]
pub struct InputAbsinfo {
    pub value: i32,
    pub minimum: i32,
    pub maximum: i32,
    pub fuzz: i32,
    pub flat: i32,
    pub resolution: i32,
}

impl Default for InputAbsinfo {
    fn default() -> (info: Self)
        ensures
            info == (InputAbsinfo {
                value: 0,
                minimum: 0,
                maximum: 0,
                fuzz: 0,
                flat: 0,
                resolution: 0,
            }),
    {
        InputAbsinfo { value: 0, minimum: 0, maximum: 0, fuzz: 0, flat: 0, resolution: 0 }
    }
}

/// A button, named as in the kernel's `input-event-codes.h`.
#[derive(Debug, Copy, Clone, PartialEq, Eq, Structural)]
pub enum MouseButton {
    BTN_0,
    BTN_1,
    BTN_2,
    BTN_3,
    BTN_4,
    BTN_5,
    BTN_6,
    BTN_7,
    BTN_8,
    BTN_9,
    BTN_LEFT,
    BTN_RIGHT,
    BTN_MIDDLE,
    BTN_SIDE,
    BTN_EXTRA,
    BTN_FORWARD,
    BTN_BACK,
    BTN_TASK,
    BTN_TRIGGER,
    BTN_THUMB,
    BTN_THUMB2,
    BTN_TOP,
    BTN_TOP2,
    BTN_PINKIE,
    BTN_BASE,
    BTN_BASE2,
    BTN_BASE3,
    BTN_BASE4,
    BTN_BASE5,
    BTN_BASE6,
    BTN_DEAD,
    BTN_SOUTH,
    BTN_EAST,
    BTN_C,
    BTN_NORTH,
    BTN_WEST,
    BTN_Z,
    BTN_TL,
    BTN_TR,
    BTN_TL2,
    BTN_TR2,
    BTN_SELECT,
    BTN_START,
    BTN_MODE,
    BTN_THUMBL,
    BTN_THUMBR,
    BTN_TOOL_PEN,
    BTN_TOOL_RUBBER,
    BTN_TOOL_BRUSH,
    BTN_TOOL_PENCIL,
    BTN_TOOL_AIRBRUSH,
    BTN_TOOL_FINGER,
    BTN_TOOL_MOUSE,
    BTN_TOOL_LENS,
    BTN_TOOL_QUINTTAP,
    BTN_STYLUS3,
    BTN_TOUCH,
    BTN_STYLUS,
    BTN_STYLUS2,
    BTN_TOOL_DOUBLETAP,
    BTN_TOOL_TRIPLETAP,
    BTN_TOOL_QUADTAP,
    BTN_GEAR_DOWN,
    BTN_GEAR_UP,
}

impl MouseButton {
    /// The number by which the kernel reports the button.
    pub open spec fn spec_code(self) -> u16 {
        match self {
            MouseButton::BTN_0 => 0x100,
            MouseButton::BTN_1 => 0x101,
            MouseButton::BTN_2 => 0x102,
            MouseButton::BTN_3 => 0x103,
            MouseButton::BTN_4 => 0x104,
            MouseButton::BTN_5 => 0x105,
            MouseButton::BTN_6 => 0x106,
            MouseButton::BTN_7 => 0x107,
            MouseButton::BTN_8 => 0x108,
            MouseButton::BTN_9 => 0x109,
            MouseButton::BTN_LEFT => 0x110,
            MouseButton::BTN_RIGHT => 0x111,
            MouseButton::BTN_MIDDLE => 0x112,
            MouseButton::BTN_SIDE => 0x113,
            MouseButton::BTN_EXTRA => 0x114,
            MouseButton::BTN_FORWARD => 0x115,
            MouseButton::BTN_BACK => 0x116,
            MouseButton::BTN_TASK => 0x117,
            MouseButton::BTN_TRIGGER => 0x120,
            MouseButton::BTN_THUMB => 0x121,
            MouseButton::BTN_THUMB2 => 0x122,
            MouseButton::BTN_TOP => 0x123,
            MouseButton::BTN_TOP2 => 0x124,
            MouseButton::BTN_PINKIE => 0x125,
            MouseButton::BTN_BASE => 0x126,
            MouseButton::BTN_BASE2 => 0x127,
            MouseButton::BTN_BASE3 => 0x128,
            MouseButton::BTN_BASE4 => 0x129,
            MouseButton::BTN_BASE5 => 0x12a,
            MouseButton::BTN_BASE6 => 0x12b,
            MouseButton::BTN_DEAD => 0x12f,
            MouseButton::BTN_SOUTH => 0x130,
            MouseButton::BTN_EAST => 0x131,
            MouseButton::BTN_C => 0x132,
            MouseButton::BTN_NORTH => 0x133,
            MouseButton::BTN_WEST => 0x134,
            MouseButton::BTN_Z => 0x135,
            MouseButton::BTN_TL => 0x136,
            MouseButton::BTN_TR => 0x137,
            MouseButton::BTN_TL2 => 0x138,
            MouseButton::BTN_TR2 => 0x139,
            MouseButton::BTN_SELECT => 0x13a,
            MouseButton::BTN_START => 0x13b,
            MouseButton::BTN_MODE => 0x13c,
            MouseButton::BTN_THUMBL => 0x13d,
            MouseButton::BTN_THUMBR => 0x13e,
            MouseButton::BTN_TOOL_PEN => 0x140,
            MouseButton::BTN_TOOL_RUBBER => 0x141,
            MouseButton::BTN_TOOL_BRUSH => 0x142,
            MouseButton::BTN_TOOL_PENCIL => 0x143,
            MouseButton::BTN_TOOL_AIRBRUSH => 0x144,
            MouseButton::BTN_TOOL_FINGER => 0x145,
            MouseButton::BTN_TOOL_MOUSE => 0x146,
            MouseButton::BTN_TOOL_LENS => 0x147,
            MouseButton::BTN_TOOL_QUINTTAP => 0x148,
            MouseButton::BTN_STYLUS3 => 0x149,
            MouseButton::BTN_TOUCH => 0x14a,
            MouseButton::BTN_STYLUS => 0x14b,
            MouseButton::BTN_STYLUS2 => 0x14c,
            MouseButton::BTN_TOOL_DOUBLETAP => 0x14d,
            MouseButton::BTN_TOOL_TRIPLETAP => 0x14e,
            MouseButton::BTN_TOOL_QUADTAP => 0x14f,
            MouseButton::BTN_GEAR_DOWN => 0x150,
            MouseButton::BTN_GEAR_UP => 0x151,
        }
    }

    /// The number by which the kernel reports the button.
    #[verifier::when_used_as_spec(spec_code)]
    pub fn code(self) -> (code: u16)
        ensures
            code == self.spec_code(),
    {
        match self {
            MouseButton::BTN_0 => 0x100,
            MouseButton::BTN_1 => 0x101,
            MouseButton::BTN_2 => 0x102,
            MouseButton::BTN_3 => 0x103,
            MouseButton::BTN_4 => 0x104,
            MouseButton::BTN_5 => 0x105,
            MouseButton::BTN_6 => 0x106,
            MouseButton::BTN_7 => 0x107,
            MouseButton::BTN_8 => 0x108,
            MouseButton::BTN_9 => 0x109,
            MouseButton::BTN_LEFT => 0x110,
            MouseButton::BTN_RIGHT => 0x111,
            MouseButton::BTN_MIDDLE => 0x112,
            MouseButton::BTN_SIDE => 0x113,
            MouseButton::BTN_EXTRA => 0x114,
            MouseButton::BTN_FORWARD => 0x115,
            MouseButton::BTN_BACK => 0x116,
            MouseButton::BTN_TASK => 0x117,
            MouseButton::BTN_TRIGGER => 0x120,
            MouseButton::BTN_THUMB => 0x121,
            MouseButton::BTN_THUMB2 => 0x122,
            MouseButton::BTN_TOP => 0x123,
            MouseButton::BTN_TOP2 => 0x124,
            MouseButton::BTN_PINKIE => 0x125,
            MouseButton::BTN_BASE => 0x126,
            MouseButton::BTN_BASE2 => 0x127,
            MouseButton::BTN_BASE3 => 0x128,
            MouseButton::BTN_BASE4 => 0x129,
            MouseButton::BTN_BASE5 => 0x12a,
            MouseButton::BTN_BASE6 => 0x12b,
            MouseButton::BTN_DEAD => 0x12f,
            MouseButton::BTN_SOUTH => 0x130,
            MouseButton::BTN_EAST => 0x131,
            MouseButton::BTN_C => 0x132,
            MouseButton::BTN_NORTH => 0x133,
            MouseButton::BTN_WEST => 0x134,
            MouseButton::BTN_Z => 0x135,
            MouseButton::BTN_TL => 0x136,
            MouseButton::BTN_TR => 0x137,
            MouseButton::BTN_TL2 => 0x138,
            MouseButton::BTN_TR2 => 0x139,
            MouseButton::BTN_SELECT => 0x13a,
            MouseButton::BTN_START => 0x13b,
            MouseButton::BTN_MODE => 0x13c,
            MouseButton::BTN_THUMBL => 0x13d,
            MouseButton::BTN_THUMBR => 0x13e,
            MouseButton::BTN_TOOL_PEN => 0x140,
            MouseButton::BTN_TOOL_RUBBER => 0x141,
            MouseButton::BTN_TOOL_BRUSH => 0x142,
            MouseButton::BTN_TOOL_PENCIL => 0x143,
            MouseButton::BTN_TOOL_AIRBRUSH => 0x144,
            MouseButton::BTN_TOOL_FINGER => 0x145,
            MouseButton::BTN_TOOL_MOUSE => 0x146,
            MouseButton::BTN_TOOL_LENS => 0x147,
            MouseButton::BTN_TOOL_QUINTTAP => 0x148,
            MouseButton::BTN_STYLUS3 => 0x149,
            MouseButton::BTN_TOUCH => 0x14a,
            MouseButton::BTN_STYLUS => 0x14b,
            MouseButton::BTN_STYLUS2 => 0x14c,
            MouseButton::BTN_TOOL_DOUBLETAP => 0x14d,
            MouseButton::BTN_TOOL_TRIPLETAP => 0x14e,
            MouseButton::BTN_TOOL_QUADTAP => 0x14f,
            MouseButton::BTN_GEAR_DOWN => 0x150,
            MouseButton::BTN_GEAR_UP => 0x151,
        }
    }
}

/// Where a finger was on an axis at the beginning and at the end of a batch of events.
#[derive(Debug, Copy, Clone, PartialEq, Eq, Structural)]
pub struct TouchSpan {
    pub start: i32,
    pub stop: i32,
}

/// A button that went down or up.
#[derive(Debug, Copy, Clone, PartialEq, Eq, Structural)]
pub struct ButtonChange {
    pub button: event::MouseButton,
    pub pressed: bool,
}

/// What a batch of events says: how far the finger went on each axis, and then what happened
/// to the buttons.
pub struct MouseBatch {
    pub touch_x: Option<TouchSpan>,
    pub touch_y: Option<TouchSpan>,
    pub buttons: Vec<ButtonChange>,
}

/// `event` reports a position on `axis`.
pub open spec fn is_position(event: InputEvent, axis: AbsAxis) -> bool {
    event.type_ == EventType::EV_ABS.code() && event.code == axis.code()
}

/// The positions on `axis` that `events` report, in order.
pub open spec fn positions(events: Seq<InputEvent>, axis: AbsAxis) -> Seq<i32> {
    events.filter(|event: InputEvent| is_position(event, axis)).map_values(
        |event: InputEvent| event.value,
    )
}

/// The first and the last of some positions.
pub open spec fn span(positions: Seq<i32>) -> Option<TouchSpan> {
    if positions.len() == 0 {
        None
    } else {
        Some(TouchSpan { start: positions.first(), stop: positions.last() })
    }
}

/// The windowing layer's name for the button numbered `code`.
pub open spec fn window_button(code: u16) -> Option<event::MouseButton> {
    if code == MouseButton::BTN_LEFT.code() {
        Some(event::MouseButton::Left)
    } else if code == MouseButton::BTN_RIGHT.code() {
        Some(event::MouseButton::Right)
    } else if code == MouseButton::BTN_MIDDLE.code() {
        Some(event::MouseButton::Middle)
    } else {
        None
    }
}

/// What `event` says about a button of the windowing layer.
pub open spec fn button_change(event: InputEvent) -> Option<ButtonChange> {
    match window_button(event.code) {
        Some(button) if event.type_ == EventType::EV_KEY.code() => Some(
            ButtonChange { button, pressed: event.value != 0 },
        ),
        _ => None,
    }
}

/// The button changes that `events` report, in order.
pub open spec fn button_changes(events: Seq<InputEvent>) -> Seq<ButtonChange> {
    events.filter(|event: InputEvent| button_change(event) is Some).map_values(
        |event: InputEvent| button_change(event)->0,
    )
}

/// `so_far`, carried on to `position`.
fn extend_span(so_far: Option<TouchSpan>, position: i32) -> (span: Option<TouchSpan>)
    ensures
        span == Some(
            TouchSpan {
                start: match so_far {
                    Some(s) => s.start,
                    None => position,
                },
                stop: position,
            },
        ),
{
    match so_far {
        Some(s) => Some(TouchSpan { start: s.start, stop: position }),
        None => Some(TouchSpan { start: position, stop: position }),
    }
}

/// What an event says about a button of the windowing layer.
pub fn button_from_event(event: &InputEvent) -> (change: Option<ButtonChange>)
    ensures
        change == button_change(*event),
{
    if event.type_ == EventType::EV_KEY.code() {
        let button = if event.code == MouseButton::BTN_LEFT.code() {
            event::MouseButton::Left
        } else if event.code == MouseButton::BTN_RIGHT.code() {
            event::MouseButton::Right
        } else if event.code == MouseButton::BTN_MIDDLE.code() {
            event::MouseButton::Middle
        } else {
            return None;
        };
        Some(ButtonChange { button, pressed: event.value != 0 })
    } else {
        None
    }
}

/// What the events of one read say.
pub fn mouse_batch(events: &[InputEvent]) -> (batch: MouseBatch)
    ensures
        batch.touch_x == span(positions(events@, AbsAxis::ABS_X)),
        batch.touch_y == span(positions(events@, AbsAxis::ABS_Y)),
        batch.buttons@ == button_changes(events@),
{
    let mut touch_x: Option<TouchSpan> = None;
    let mut touch_y: Option<TouchSpan> = None;
    let mut buttons: Vec<ButtonChange> = Vec::new();
    let mut i: usize = 0;
    proof {
        assert(events@.take(0) =~= Seq::empty());
        reveal(Seq::filter);
        assert(button_changes(events@.take(0)) =~= Seq::empty());
    }
    while i < events.len()
        invariant
            i <= events@.len(),
            touch_x == span(positions(events@.take(i as int), AbsAxis::ABS_X)),
            touch_y == span(positions(events@.take(i as int), AbsAxis::ABS_Y)),
            buttons@ == button_changes(events@.take(i as int)),
        decreases events@.len() - i,
    {
        let event = events[i];
        proof {
            assert(events@.take(i + 1) =~= events@.take(i as int).push(event));
            lemma_positions_push(events@.take(i as int), event, AbsAxis::ABS_X);
            lemma_positions_push(events@.take(i as int), event, AbsAxis::ABS_Y);
            lemma_button_changes_push(events@.take(i as int), event);
        }
        if event.type_ == EventType::EV_ABS.code() {
            if event.code == AbsAxis::ABS_X.code() {
                touch_x = extend_span(touch_x, event.value);
            } else if event.code == AbsAxis::ABS_Y.code() {
                touch_y = extend_span(touch_y, event.value);
            }
        }
        if let Some(change) = button_from_event(&event) {
            buttons.push(change);
        }
        i += 1;
    }
    proof {
        assert(events@.take(i as int) =~= events@);
    }
    MouseBatch { touch_x, touch_y, buttons }
}

proof fn lemma_positions_push(events: Seq<InputEvent>, event: InputEvent, axis: AbsAxis)
    ensures
        positions(events.push(event), axis) == if is_position(event, axis) {
            positions(events, axis).push(event.value)
        } else {
            positions(events, axis)
        },
{
    reveal(Seq::filter);
    assert(events.push(event).drop_last() =~= events);
    assert(positions(events.push(event), axis) =~= if is_position(event, axis) {
        positions(events, axis).push(event.value)
    } else {
        positions(events, axis)
    });
}

proof fn lemma_button_changes_push(events: Seq<InputEvent>, event: InputEvent)
    ensures
        button_changes(events.push(event)) == match button_change(event) {
            Some(change) => button_changes(events).push(change),
            None => button_changes(events),
        },
{
    reveal(Seq::filter);
    assert(events.push(event).drop_last() =~= events);
    assert(button_changes(events.push(event)) =~= match button_change(event) {
        Some(change) => button_changes(events).push(change),
        None => button_changes(events),
    });
}

/// Positions and button changes of two batches, one after the other, are those of the events
/// together.
pub proof fn law_batches_join(first: Seq<InputEvent>, second: Seq<InputEvent>, axis: AbsAxis)
    ensures
        positions(first + second, axis) == positions(first, axis) + positions(second, axis),
        button_changes(first + second) == button_changes(first) + button_changes(second),
    decreases second.len(),
{
    reveal(Seq::filter);
    if second.len() == 0 {
        assert(first + second =~= first);
        assert(positions(second, axis) =~= Seq::empty());
        assert(button_changes(second) =~= Seq::empty());
        assert(positions(first, axis) + positions(second, axis) =~= positions(first, axis));
        assert(button_changes(first) + button_changes(second) =~= button_changes(first));
    } else {
        let init = second.drop_last();
        let last = second.last();
        law_batches_join(first, init, axis);
        assert(first + second =~= (first + init).push(last));
        assert(second =~= init.push(last));
        lemma_positions_push(first + init, last, axis);
        lemma_positions_push(init, last, axis);
        lemma_button_changes_push(first + init, last);
        lemma_button_changes_push(init, last);
        assert(positions(first + second, axis) =~= positions(first, axis) + positions(
            second,
            axis,
        ));
        assert(button_changes(first + second) =~= button_changes(first) + button_changes(second));
    }
}

/// Events on other axes and of other kinds do not move the finger: an axis without a position
/// has no span.
pub proof fn law_no_position_no_span(events: Seq<InputEvent>, axis: AbsAxis)
    requires
        forall|i: int| 0 <= i < events.len() ==> !is_position(#[trigger] events[i], axis),
    ensures
        span(positions(events, axis)) is None,
    decreases events.len(),
{
    reveal(Seq::filter);
    if events.len() > 0 {
        let init = events.drop_last();
        assert forall|i: int| 0 <= i < init.len() implies !is_position(
            #[trigger] init[i],
            axis,
        ) by {
            assert(init[i] == events[i]);
        }
        law_no_position_no_span(init, axis);
        assert(events =~= init.push(events.last()));
        lemma_positions_push(init, events.last(), axis);
    }
}

proof fn lemma_first_position(events: Seq<InputEvent>, axis: AbsAxis, i: int)
    requires
        0 <= i < events.len(),
        is_position(events[i], axis),
        forall|k: int| 0 <= k < i ==> !is_position(#[trigger] events[k], axis),
    ensures
        positions(events, axis).len() > 0,
        positions(events, axis)[0] == events[i].value,
    decreases events.len(),
{
    let init = events.drop_last();
    assert(events =~= init.push(events.last()));
    lemma_positions_push(init, events.last(), axis);
    if i < init.len() {
        assert forall|k: int| 0 <= k < i implies !is_position(#[trigger] init[k], axis) by {
            assert(init[k] == events[k]);
        }
        lemma_first_position(init, axis, i);
    } else {
        assert forall|k: int| 0 <= k < init.len() implies !is_position(
            #[trigger] init[k],
            axis,
        ) by {
            assert(init[k] == events[k]);
        }
        lemma_no_positions(init, axis);
    }
}

proof fn lemma_last_position(events: Seq<InputEvent>, axis: AbsAxis, j: int)
    requires
        0 <= j < events.len(),
        is_position(events[j], axis),
        forall|k: int| j < k < events.len() ==> !is_position(#[trigger] events[k], axis),
    ensures
        positions(events, axis).len() > 0,
        positions(events, axis).last() == events[j].value,
    decreases events.len(),
{
    let init = events.drop_last();
    assert(events =~= init.push(events.last()));
    lemma_positions_push(init, events.last(), axis);
    if j < init.len() {
        assert(!is_position(events[init.len() as int], axis));
        assert forall|k: int| j < k < init.len() implies !is_position(
            #[trigger] init[k],
            axis,
        ) by {
            assert(init[k] == events[k]);
        }
        lemma_last_position(init, axis, j);
    }
}

proof fn lemma_no_positions(events: Seq<InputEvent>, axis: AbsAxis)
    requires
        forall|k: int| 0 <= k < events.len() ==> !is_position(#[trigger] events[k], axis),
    ensures
        positions(events, axis).len() == 0,
    decreases events.len(),
{
    reveal(Seq::filter);
    if events.len() > 0 {
        let init = events.drop_last();
        assert forall|k: int| 0 <= k < init.len() implies !is_position(
            #[trigger] init[k],
            axis,
        ) by {
            assert(init[k] == events[k]);
        }
        lemma_no_positions(init, axis);
        assert(events =~= init.push(events.last()));
        lemma_positions_push(init, events.last(), axis);
    }
}

/// The span of an axis goes from the value of the first event that reports a position on it to
/// that of the last one, whatever the values are: it may go either way, and what lies between
/// does not matter. Positions are events of kind 3, numbered 0 on the horizontal axis and 1 on
/// the vertical one.
pub proof fn law_span_goes_from_first_to_last(
    events: Seq<InputEvent>,
    axis: AbsAxis,
    number: u16,
    i: int,
    j: int,
)
    requires
        (axis == AbsAxis::ABS_X && number == 0) || (axis == AbsAxis::ABS_Y && number == 1),
        0 <= i < events.len(),
        0 <= j < events.len(),
        events[i].type_ == 3 && events[i].code == number,
        events[j].type_ == 3 && events[j].code == number,
        forall|k: int|
            0 <= k < i ==> !((#[trigger] events[k]).type_ == 3 && events[k].code == number),
        forall|k: int|
            j < k < events.len() ==> !((#[trigger] events[k]).type_ == 3 && events[k].code
                == number),
    ensures
        span(positions(events, axis)) is Some,
        (span(positions(events, axis))->0).start == events[i].value,
        (span(positions(events, axis))->0).stop == events[j].value,
        (span(positions(events, axis))->0).stop - (span(positions(events, axis))->0).start
            == events[j].value - events[i].value,
{
    assert forall|k: int| 0 <= k < i implies !is_position(#[trigger] events[k], axis) by {
        assert(!(events[k].type_ == 3 && events[k].code == number));
    }
    assert forall|k: int| j < k < events.len() implies !is_position(
        #[trigger] events[k],
        axis,
    ) by {
        assert(!(events[k].type_ == 3 && events[k].code == number));
    }
    lemma_first_position(events, axis, i);
    lemma_last_position(events, axis, j);
}

/// An axis has no span exactly if no event reports a position on it.
pub proof fn law_no_span_without_positions(events: Seq<InputEvent>, axis: AbsAxis, number: u16)
    requires
        (axis == AbsAxis::ABS_X && number == 0) || (axis == AbsAxis::ABS_Y && number == 1),
    ensures
        span(positions(events, axis)) is None <==> forall|k: int|
            0 <= k < events.len() ==> !((#[trigger] events[k]).type_ == 3 && events[k].code
                == number),
{
    if forall|k: int|
        0 <= k < events.len() ==> !((#[trigger] events[k]).type_ == 3 && events[k].code
            == number) {
        assert forall|k: int| 0 <= k < events.len() implies !is_position(
            #[trigger] events[k],
            axis,
        ) by {
            assert(!(events[k].type_ == 3 && events[k].code == number));
        }
        lemma_no_positions(events, axis);
    } else {
        let k = choose|k: int|
            0 <= k < events.len() && (#[trigger] events[k]).type_ == 3 && events[k].code
                == number;
        lemma_position_counts(events, axis, k);
    }
}

proof fn lemma_position_counts(events: Seq<InputEvent>, axis: AbsAxis, k: int)
    requires
        0 <= k < events.len(),
        is_position(events[k], axis),
    ensures
        positions(events, axis).len() > 0,
    decreases events.len(),
{
    let init = events.drop_last();
    assert(events =~= init.push(events.last()));
    lemma_positions_push(init, events.last(), axis);
    if k < init.len() {
        lemma_position_counts(init, axis, k);
    }
}

/// An event changes a button exactly if it is of kind 1 and numbered 0x110, 0x111 or 0x112,
/// which stand for the left, the right and the middle button. A button is released by the
/// value 0 and pressed by every other.
pub proof fn law_what_an_event_says_of_buttons(event: InputEvent)
    ensures
        button_change(event) is Some <==> event.type_ == 1 && 0x110 <= event.code <= 0x112,
        button_change(event) matches Some(change) ==> {
            &&& change.button == event::MouseButton::Left <==> event.code == 0x110
            &&& change.button == event::MouseButton::Right <==> event.code == 0x111
            &&& change.button == event::MouseButton::Middle <==> event.code == 0x112
            &&& change.pressed <==> event.value != 0
        },
{
}

/// No events say nothing, and a single event says of the axes and the buttons what it says
/// itself.
pub proof fn law_none_and_one(event: InputEvent, axis: AbsAxis, number: u16)
    requires
        (axis == AbsAxis::ABS_X && number == 0) || (axis == AbsAxis::ABS_Y && number == 1),
    ensures
        positions(Seq::empty(), axis).len() == 0,
        button_changes(Seq::empty()).len() == 0,
        event.type_ == 3 && event.code == number ==> positions(seq![event], axis) == seq![
            event.value,
        ],
        !(event.type_ == 3 && event.code == number) ==> positions(seq![event], axis).len() == 0,
        match button_change(event) {
            Some(change) => button_changes(seq![event]) == seq![change],
            None => button_changes(seq![event]).len() == 0,
        },
{
    reveal(Seq::filter);
    let none = Seq::<InputEvent>::empty();
    assert(none.push(event) =~= seq![event]);
    assert(positions(none, axis).len() == 0);
    assert(button_changes(none).len() == 0);
    lemma_positions_push(none, event, axis);
    lemma_button_changes_push(none, event);
    assert(positions(none, axis).push(event.value) =~= seq![event.value]);
    if let Some(change) = button_change(event) {
        assert(button_changes(none).push(change) =~= seq![change]);
    }
}

/// No two buttons share a number.
pub proof fn law_button_numbers_distinct(a: MouseButton, b: MouseButton)
    ensures
        a.code() == b.code() ==> a == b,
        0x100 <= a.code() <= 0x151,
{
}

/// The buttons bear consecutive numbers from `first` on.
pub open spec fn numbered_from(first: int, buttons: Seq<MouseButton>) -> bool {
    forall|i: int| 0 <= i < buttons.len() ==> (#[trigger] buttons[i]).code() == first + i
}

/// The buttons of a kind of device bear consecutive numbers.
#[verifier::spinoff_prover]
#[verifier::rlimit(40)]
pub proof fn law_numbers_of_buttons()
    ensures
        numbered_from(
            0x100,
            seq![
                MouseButton::BTN_0, MouseButton::BTN_1, MouseButton::BTN_2, MouseButton::BTN_3,
                MouseButton::BTN_4, MouseButton::BTN_5, MouseButton::BTN_6, MouseButton::BTN_7,
                MouseButton::BTN_8, MouseButton::BTN_9,
            ],
        ),
        numbered_from(
            0x110,
            seq![
                MouseButton::BTN_LEFT, MouseButton::BTN_RIGHT, MouseButton::BTN_MIDDLE,
                MouseButton::BTN_SIDE, MouseButton::BTN_EXTRA, MouseButton::BTN_FORWARD,
                MouseButton::BTN_BACK, MouseButton::BTN_TASK,
            ],
        ),
        numbered_from(
            0x120,
            seq![
                MouseButton::BTN_TRIGGER, MouseButton::BTN_THUMB, MouseButton::BTN_THUMB2,
                MouseButton::BTN_TOP, MouseButton::BTN_TOP2, MouseButton::BTN_PINKIE,
                MouseButton::BTN_BASE, MouseButton::BTN_BASE2, MouseButton::BTN_BASE3,
                MouseButton::BTN_BASE4, MouseButton::BTN_BASE5, MouseButton::BTN_BASE6,
            ],
        ),
        numbered_from(0x12f, seq![MouseButton::BTN_DEAD]),
        numbered_from(
            0x130,
            seq![
                MouseButton::BTN_SOUTH, MouseButton::BTN_EAST, MouseButton::BTN_C,
                MouseButton::BTN_NORTH, MouseButton::BTN_WEST, MouseButton::BTN_Z,
                MouseButton::BTN_TL, MouseButton::BTN_TR, MouseButton::BTN_TL2,
                MouseButton::BTN_TR2, MouseButton::BTN_SELECT, MouseButton::BTN_START,
                MouseButton::BTN_MODE, MouseButton::BTN_THUMBL, MouseButton::BTN_THUMBR,
            ],
        ),
        numbered_from(
            0x140,
            seq![
                MouseButton::BTN_TOOL_PEN, MouseButton::BTN_TOOL_RUBBER,
                MouseButton::BTN_TOOL_BRUSH, MouseButton::BTN_TOOL_PENCIL,
                MouseButton::BTN_TOOL_AIRBRUSH, MouseButton::BTN_TOOL_FINGER,
                MouseButton::BTN_TOOL_MOUSE, MouseButton::BTN_TOOL_LENS,
                MouseButton::BTN_TOOL_QUINTTAP, MouseButton::BTN_STYLUS3,
                MouseButton::BTN_TOUCH, MouseButton::BTN_STYLUS, MouseButton::BTN_STYLUS2,
                MouseButton::BTN_TOOL_DOUBLETAP, MouseButton::BTN_TOOL_TRIPLETAP,
                MouseButton::BTN_TOOL_QUADTAP,
            ],
        ),
        numbered_from(
            0x150,
            seq![
                MouseButton::BTN_GEAR_DOWN, MouseButton::BTN_GEAR_UP,
            ],
        ),
{
}

} // verus!

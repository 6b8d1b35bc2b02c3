//! Events of the Linux input subsystem.

use vstd::prelude::*;
use vstd::slice::slice_subrange;

use crate::keys::KeyCode;

verus! {

/// The `ioctl` request that takes a device for exclusive use.
pub const EVIOCGRAB: u64 = 0x40044590;

/// The `ioctl` request that reads a keyboard's repeat settings.
pub const EVIOCGREP: u64 = 0x80084503;

/// The `ioctl` request that writes a keyboard's repeat settings.
pub const EVIOCSREP: u64 = 0x40084503;

/// The `ioctl` request that reads a device's name into a buffer of 256 bytes.
pub const EVIOCGNAME_256: u64 = 0x81004506;

/// The kinds of events a device reports.
#[derive(Debug, Copy, Clone, PartialEq, Eq, Structural)]
pub enum EventType {
    EV_SYN,
    EV_KEY,
    EV_REL,
    EV_ABS,
    EV_MSC,
    EV_SW,
    EV_LED,
    EV_SND,
    EV_REP,
    EV_FF,
    EV_PWR,
    EV_FF_STATUS,
    EV_MAX,
    EV_CNT,
}

impl EventType {
    /// The kernel's number for the kind of event.
    pub open spec fn spec_code(self) -> u16 {
        match self {
            EventType::EV_SYN => 0x00,
            EventType::EV_KEY => 0x01,
            EventType::EV_REL => 0x02,
            EventType::EV_ABS => 0x03,
            EventType::EV_MSC => 0x04,
            EventType::EV_SW => 0x05,
            EventType::EV_LED => 0x11,
            EventType::EV_SND => 0x12,
            EventType::EV_REP => 0x14,
            EventType::EV_FF => 0x15,
            EventType::EV_PWR => 0x16,
            EventType::EV_FF_STATUS => 0x17,
            EventType::EV_MAX => 0x1f,
            EventType::EV_CNT => 0x20,
        }
    }

    /// The kernel's number for the kind of event.
    #[verifier::when_used_as_spec(spec_code)]
    pub fn code(self) -> (code: u16)
        ensures
            code == self.spec_code(),
    {
        match self {
            EventType::EV_SYN => 0x00,
            EventType::EV_KEY => 0x01,
            EventType::EV_REL => 0x02,
            EventType::EV_ABS => 0x03,
            EventType::EV_MSC => 0x04,
            EventType::EV_SW => 0x05,
            EventType::EV_LED => 0x11,
            EventType::EV_SND => 0x12,
            EventType::EV_REP => 0x14,
            EventType::EV_FF => 0x15,
            EventType::EV_PWR => 0x16,
            EventType::EV_FF_STATUS => 0x17,
            EventType::EV_MAX => 0x1f,
            EventType::EV_CNT => 0x20,
        }
    }
}

/// Axes on which a device reports absolute positions.
#[derive(Debug, Copy, Clone, PartialEq, Eq, Structural)]
pub enum AbsAxis {
    ABS_X,
    ABS_Y,
    ABS_Z,
    ABS_MT_POSITION_X,
    ABS_MT_POSITION_Y,
}

impl AbsAxis {
    /// The kernel's number for the axis.
    pub open spec fn spec_code(self) -> u16 {
        match self {
            AbsAxis::ABS_X => 0x00,
            AbsAxis::ABS_Y => 0x01,
            AbsAxis::ABS_Z => 0x02,
            AbsAxis::ABS_MT_POSITION_X => 0x35,
            AbsAxis::ABS_MT_POSITION_Y => 0x36,
        }
    }

    /// The kernel's number for the axis.
    #[verifier::when_used_as_spec(spec_code)]
    pub fn code(self) -> (code: u16)
        ensures
            code == self.spec_code(),
    {
        match self {
            AbsAxis::ABS_X => 0x00,
            AbsAxis::ABS_Y => 0x01,
            AbsAxis::ABS_Z => 0x02,
            AbsAxis::ABS_MT_POSITION_X => 0x35,
            AbsAxis::ABS_MT_POSITION_Y => 0x36,
        }
    }
}

/// The `ioctl` request that reads the range of an absolute axis.
pub fn EVIOCGABS(abs: AbsAxis) -> (request: u64)
    ensures
        request == 0x80184540 + abs.code(),
        request == request_number(2, 24, (0x40 + abs.code()) as nat),
{
    0x80184540 + abs.code() as u64
}

/// What happened to a key.
#[derive(Debug, PartialEq, Eq, PartialOrd, Ord, Copy, Clone, Structural)]
pub enum KeyAction {
    Up,
    Down,
    Repeat,
}

impl KeyAction {
    /// The value by which a key event reports the action.
    pub open spec fn spec_value(self) -> i32 {
        match self {
            KeyAction::Up => 0,
            KeyAction::Down => 1,
            KeyAction::Repeat => 2,
        }
    }

    /// The value by which a key event reports the action.
    #[verifier::when_used_as_spec(spec_value)]
    pub fn value(self) -> (value: i32)
        ensures
            value == self.spec_value(),
    {
        match self {
            KeyAction::Up => 0,
            KeyAction::Down => 1,
            KeyAction::Repeat => 2,
        }
    }
}

/// One event, without its time stamp.
#[derive(Debug, Copy, Clone, PartialEq, Eq, Structural)]
pub struct InputEvent {
    pub type_: u16,
    pub code: u16,
    pub value: i32,
}

/// The action that a key event's value stands for.
pub open spec fn action_with_value(value: i32) -> Option<KeyAction> {
    if value == KeyAction::Up.value() {
        Some(KeyAction::Up)
    } else if value == KeyAction::Down.value() {
        Some(KeyAction::Down)
    } else if value == KeyAction::Repeat.value() {
        Some(KeyAction::Repeat)
    } else {
        None
    }
}

/// The key and the action that an event reports: only key events with a known action do.
pub open spec fn event_key(event: InputEvent) -> Option<(KeyCode, KeyAction)> {
    match action_with_value(event.value) {
        Some(action) if event.type_ == EventType::EV_KEY.code() => Some(
            (crate::keys::key_or_unknown(event.code), action),
        ),
        _ => None,
    }
}

/// The key and the action that an event reports.
pub fn key_from_event(event: &InputEvent) -> (key: Option<(KeyCode, KeyAction)>)
    ensures
        key == event_key(*event),
{
    if event.type_ == EventType::EV_KEY.code() {
        let action = if event.value == KeyAction::Up.value() {
            KeyAction::Up
        } else if event.value == KeyAction::Down.value() {
            KeyAction::Down
        } else if event.value == KeyAction::Repeat.value() {
            KeyAction::Repeat
        } else {
            return None;
        };
        let keycode = match KeyCode::from_code(event.code) {
            Some(keycode) => keycode,
            None => KeyCode::KEY_UNKNOWN,
        };
        Some((keycode, action))
    } else {
        None
    }
}

/// The events that a read left in `event_buf`, given the status that the read returned and
/// the size of one event in bytes. A failed read gives back `errno`.
pub fn read_input_events<'a>(
    read_status: isize,
    errno: i32,
    event_size: usize,
    event_buf: &'a [InputEvent],
) -> (events: Result<&'a [InputEvent], i32>)
    requires
        event_size > 0,
        read_status <= event_buf@.len() * event_size,
    ensures
        read_status < 0 ==> events == Err::<&'a [InputEvent], i32>(errno),
        read_status >= 0 ==> events is Ok && events->Ok_0@ == event_buf@.take(
            read_status as int / event_size as int,
        ),
        read_status >= 0 ==> events->Ok_0@.len() * event_size <= read_status < (
        events->Ok_0@.len() + 1) * event_size,
        events matches Ok(read) ==> forall|i: int|
            0 <= i < read@.len() ==> #[trigger] read@[i] == event_buf@[i],
{
    if read_status < 0 {
        Err(errno)
    } else {
        let count: usize = read_status as usize / event_size;
        assert(count <= event_buf@.len()) by (nonlinear_arith)
            requires
                event_size > 0,
                0 <= read_status <= event_buf@.len() * event_size,
                count == read_status as int / event_size as int,
        ;
        assert(count * event_size <= read_status < (count + 1) * event_size) by (nonlinear_arith)
            requires
                event_size > 0,
                0 <= read_status,
                count == read_status as int / event_size as int,
        ;
        Ok(slice_subrange(event_buf, 0, count))
    }
}

/// An action is the only one with its value.
pub proof fn law_action_value_round_trip(action: KeyAction)
    ensures
        action_with_value(action.value()) == Some(action),
{
}

/// An event reports a key exactly if it is of kind 1 and its value is 0, 1 or 2, which say
/// that the key went up, went down, or repeats. The key is the one that bears the event's
/// number, or the unknown key where no key does.
pub proof fn law_what_an_event_reports(event: InputEvent)
    ensures
        event_key(event) is Some <==> event.type_ == 1 && 0 <= event.value <= 2,
        event_key(event) matches Some((key, action)) ==> {
            &&& action == KeyAction::Up <==> event.value == 0
            &&& action == KeyAction::Down <==> event.value == 1
            &&& action == KeyAction::Repeat <==> event.value == 2
            &&& if event.code <= 83 || 85 <= event.code <= 194 || 200 <= event.code <= 248 {
                key.code() == event.code
            } else {
                key == KeyCode::KEY_UNKNOWN
            }
        },
{
    crate::keys::law_lookup_is_exact(event.code);
}

/// The event that reports `action` on `key`, and only such an event, is read as that.
pub proof fn law_key_event_round_trip(key: KeyCode, action: KeyAction)
    ensures
        event_key(
            (InputEvent {
                type_: 1,
                code: key.code(),
                value: match action {
                    KeyAction::Up => 0,
                    KeyAction::Down => 1,
                    KeyAction::Repeat => 2,
                },
            }),
        ) == Some((key, action)),
{
    crate::keys::law_code_round_trip(key);
}

/// The kinds of events and the axes bear the kernel's numbers.
pub proof fn law_numbers_of_kinds_and_axes()
    ensures
        EventType::EV_SYN.code() == 0x00,
        EventType::EV_KEY.code() == EventType::EV_SYN.code() + 1,
        EventType::EV_REL.code() == EventType::EV_KEY.code() + 1,
        EventType::EV_ABS.code() == EventType::EV_REL.code() + 1,
        EventType::EV_MSC.code() == EventType::EV_ABS.code() + 1,
        EventType::EV_SW.code() == EventType::EV_MSC.code() + 1,
        EventType::EV_LED.code() == 0x11,
        EventType::EV_SND.code() == EventType::EV_LED.code() + 1,
        EventType::EV_REP.code() == 0x14,
        EventType::EV_FF.code() == EventType::EV_REP.code() + 1,
        EventType::EV_PWR.code() == EventType::EV_FF.code() + 1,
        EventType::EV_FF_STATUS.code() == EventType::EV_PWR.code() + 1,
        EventType::EV_MAX.code() == 0x1f,
        EventType::EV_CNT.code() == EventType::EV_MAX.code() + 1,
        AbsAxis::ABS_X.code() == 0x00,
        AbsAxis::ABS_Y.code() == AbsAxis::ABS_X.code() + 1,
        AbsAxis::ABS_Z.code() == AbsAxis::ABS_Y.code() + 1,
        AbsAxis::ABS_MT_POSITION_X.code() == 0x35,
        AbsAxis::ABS_MT_POSITION_Y.code() == AbsAxis::ABS_MT_POSITION_X.code() + 1,
{
}

/// No two kinds of events and no two axes share a number.
pub proof fn law_kinds_and_axes_distinct(a: EventType, b: EventType, x: AbsAxis, y: AbsAxis)
    ensures
        a.code() == b.code() ==> a == b,
        x.code() == y.code() ==> x == y,
{
}

/// The request with a direction (1 to write, 2 to read), the size of what is passed, the
/// letter of the input subsystem and a number.
pub open spec fn request_number(direction: nat, size: nat, number: nat) -> nat {
    ((direction * 0x4000 + size) * 0x100 + 0x45) * 0x100 + number
}

/// The requests are made up as the kernel makes them up: a device is taken with a number of
/// four bytes, repeat settings are two such numbers, and a name has 256 bytes.
pub proof fn law_requests_are_well_formed()
    ensures
        EVIOCGRAB == request_number(1, 4, 0x90),
        EVIOCGREP == request_number(2, 8, 0x03),
        EVIOCSREP == request_number(1, 8, 0x03),
        EVIOCGNAME_256 == request_number(2, 256, 0x06),
{
}

} // verus!

//! Keyboards: modifier tracking, typed characters and key notifications.

use vstd::prelude::*;

use crate::event;
use crate::event::KeyMods;
use crate::input::{key_from_event, InputEvent, KeyAction};
use crate::keys::{chars_from_keycode, KeyCode};

verus! {

/// How a keyboard repeats a held key.
#[derive(Debug, Copy, Clone, PartialEq, Eq, Structural)]
pub struct KeyboardRepeat {
    pub delay: u32,
    pub period: u32,
}

impl Default for KeyboardRepeat {
    fn default() -> (repeat: Self)
        ensures
            repeat.delay == 0 && repeat.period == 0,
    {
        KeyboardRepeat { delay: 0, period: 0 }
    }
}

/// An open keyboard and the modifiers held on it.
#[derive(Debug)]
pub struct Keyboard {
    pub name: String,
    pub path: String,
    pub default_kbd_repeat: KeyboardRepeat,
    pub fd: i32,
    pub key_mods: KeyMods,
}

impl Default for Keyboard {
    fn default() -> (keyboard: Self)
        ensures
            keyboard.name@ == Seq::<char>::empty(),
            keyboard.path@ == Seq::<char>::empty(),
            keyboard.default_kbd_repeat == (KeyboardRepeat { delay: 0, period: 0 }),
            keyboard.fd == 0,
            keyboard.key_mods == (KeyMods { shift: false, ctrl: false, alt: false, logo: false }),
    {
        Keyboard {
            name: String::new(),
            path: String::new(),
            default_kbd_repeat: KeyboardRepeat::default(),
            fd: 0,
            key_mods: KeyMods::default(),
        }
    }
}

/// What a keyboard event leads to, in the order in which it happens.
#[derive(Debug, Copy, Clone, PartialEq, Eq, Structural)]
pub enum KeyboardOutput {
    /// Tell the handler of a typed character.
    Char { character: char, mods: KeyMods, repeat: bool },
    /// Log the key.
    Trace { mods: KeyMods, action: KeyAction, key: KeyCode },
    /// Tell the handler that a key went up.
    KeyUp { keycode: event::KeyCode, mods: KeyMods },
    /// Tell the handler that a key went down.
    KeyDown { keycode: event::KeyCode, mods: KeyMods, repeat: bool },
}

/// What a batch of keyboard events leads to.
pub struct KeyboardBatch {
    pub outputs: Vec<KeyboardOutput>,
    /// The key combination that ends the program was pressed. Later events are not looked at.
    pub quit: bool,
}

/// A modifier.
pub ghost enum Modifier {
    Ctrl,
    Alt,
    Shift,
    Logo,
}

/// The modifier that a key stands for.
pub open spec fn modifier_of(key: KeyCode) -> Option<Modifier> {
    match key {
        KeyCode::KEY_LEFTCTRL | KeyCode::KEY_RIGHTCTRL => Some(Modifier::Ctrl),
        KeyCode::KEY_LEFTALT | KeyCode::KEY_RIGHTALT => Some(Modifier::Alt),
        KeyCode::KEY_LEFTSHIFT | KeyCode::KEY_RIGHTSHIFT => Some(Modifier::Shift),
        KeyCode::KEY_LEFTMETA | KeyCode::KEY_RIGHTMETA => Some(Modifier::Logo),
        _ => None,
    }
}

/// Whether `modifier` counts as held in `mods`.
pub open spec fn held(mods: KeyMods, modifier: Modifier) -> bool {
    match modifier {
        Modifier::Ctrl => mods.ctrl,
        Modifier::Alt => mods.alt,
        Modifier::Shift => mods.shift,
        Modifier::Logo => mods.logo,
    }
}

/// `mods` with `modifier` held or not.
pub open spec fn with_held(mods: KeyMods, modifier: Modifier, on: bool) -> KeyMods {
    match modifier {
        Modifier::Ctrl => KeyMods { ctrl: on, ..mods },
        Modifier::Alt => KeyMods { alt: on, ..mods },
        Modifier::Shift => KeyMods { shift: on, ..mods },
        Modifier::Logo => KeyMods { logo: on, ..mods },
    }
}

/// The modifiers held after `action` on `key`: a modifier key sets its modifier when it goes
/// down and clears it when it goes up.
pub open spec fn mods_after(mods: KeyMods, key: KeyCode, action: KeyAction) -> KeyMods {
    match modifier_of(key) {
        Some(modifier) if action != KeyAction::Repeat => with_held(
            mods,
            modifier,
            action == KeyAction::Down,
        ),
        _ => mods,
    }
}

/// The character that `action` on `key` types.
pub open spec fn typed(mods: KeyMods, key: KeyCode, action: KeyAction) -> Seq<KeyboardOutput> {
    match crate::keys::us_layout(key.code() as int) {
        Some((plain, shifted)) if action != KeyAction::Up => seq![
            KeyboardOutput::Char {
                character: if mods.shift { shifted } else { plain },
                mods,
                repeat: action == KeyAction::Repeat,
            },
        ],
        _ => Seq::empty(),
    }
}

/// How the handler is told of `action` on `key`: a repeated key goes up and down again.
pub open spec fn notified(mods: KeyMods, key: KeyCode, action: KeyAction) -> Seq<KeyboardOutput> {
    match crate::keys::window_key(key.code() as int) {
        Some(keycode) => {
            let up = KeyboardOutput::KeyUp { keycode, mods };
            let down = KeyboardOutput::KeyDown { keycode, mods, repeat: false };
            match action {
                KeyAction::Up => seq![up],
                KeyAction::Down => seq![down],
                KeyAction::Repeat => seq![up, down],
            }
        },
        None => Seq::empty(),
    }
}

/// The combination that ends the program: escape, with every modifier held.
pub open spec fn is_quit_combination(mods: KeyMods, key: KeyCode, action: KeyAction) -> bool {
    &&& mods.alt && mods.ctrl && mods.shift && mods.logo
    &&& action == KeyAction::Down
    &&& key == KeyCode::KEY_ESC
}

/// The modifiers held after events, what the events led to, and whether they ended the
/// program.
#[verifier::ext_equal]
pub ghost struct KeyboardRun {
    pub mods: KeyMods,
    pub outputs: Seq<KeyboardOutput>,
    pub quit: bool,
}

/// What `action` on `key` does to a keyboard on which `mods` are held.
pub open spec fn key_run(mods: KeyMods, key: KeyCode, action: KeyAction) -> KeyboardRun {
    let after = mods_after(mods, key, action);
    let quit = is_quit_combination(after, key, action);
    let trace = KeyboardOutput::Trace { mods: after, action, key };
    let rest = if quit { Seq::empty() } else { notified(after, key, action) };
    KeyboardRun { mods: after, outputs: typed(after, key, action) + seq![trace] + rest, quit }
}

/// What one event does to a keyboard on which `mods` are held.
pub open spec fn event_run(mods: KeyMods, event: InputEvent) -> KeyboardRun {
    match crate::input::event_key(event) {
        Some((key, action)) => key_run(mods, key, action),
        None => KeyboardRun { mods, outputs: Seq::empty(), quit: false },
    }
}

/// What a sequence of events does to a keyboard on which `mods` are held. Nothing follows the
/// event that ends the program.
pub open spec fn events_run(mods: KeyMods, events: Seq<InputEvent>) -> KeyboardRun
    decreases events.len(),
{
    if events.len() == 0 {
        KeyboardRun { mods, outputs: Seq::empty(), quit: false }
    } else {
        let first = event_run(mods, events[0]);
        if first.quit {
            first
        } else {
            let rest = events_run(first.mods, events.drop_first());
            KeyboardRun {
                mods: rest.mods,
                outputs: first.outputs + rest.outputs,
                quit: rest.quit,
            }
        }
    }
}

impl Keyboard {
    /// A keyboard that was just opened. A device whose name could not be read has an empty one.
    pub fn new(
        name: Option<String>,
        path: String,
        default_kbd_repeat: KeyboardRepeat,
        fd: i32,
    ) -> (keyboard: Keyboard)
        ensures
            keyboard.name@ == (match name {
                Some(name) => name@,
                None => Seq::empty(),
            }),
            keyboard.path == path,
            keyboard.default_kbd_repeat == default_kbd_repeat,
            keyboard.fd == fd,
            keyboard.key_mods == (KeyMods { shift: false, ctrl: false, alt: false, logo: false }),
    {
        Keyboard {
            name: match name {
                Some(name) => name,
                None => String::new(),
            },
            path,
            default_kbd_repeat,
            fd,
            key_mods: KeyMods::default(),
        }
    }

    /// Takes note of a modifier key.
    fn track_modifier(&mut self, keycode: KeyCode, action: KeyAction)
        ensures
            *final(self) == (Keyboard {
                key_mods: mods_after(old(self).key_mods, keycode, action),
                ..*old(self)
            }),
    {
        if action != KeyAction::Repeat {
            match keycode {
                KeyCode::KEY_LEFTCTRL | KeyCode::KEY_RIGHTCTRL => {
                    self.key_mods.ctrl = action != KeyAction::Up;
                },
                KeyCode::KEY_LEFTALT | KeyCode::KEY_RIGHTALT => {
                    self.key_mods.alt = action != KeyAction::Up;
                },
                KeyCode::KEY_LEFTSHIFT | KeyCode::KEY_RIGHTSHIFT => {
                    self.key_mods.shift = action != KeyAction::Up;
                },
                KeyCode::KEY_LEFTMETA | KeyCode::KEY_RIGHTMETA => {
                    self.key_mods.logo = action != KeyAction::Up;
                },
                _ => (),
            }
        }
    }

    /// Handles what happened to a key. What it leads to is added to `outputs`; the result says
    /// whether it ended the program.
    fn handle_key(
        &mut self,
        keycode: KeyCode,
        action: KeyAction,
        outputs: &mut Vec<KeyboardOutput>,
    ) -> (quit: bool)
        ensures
            *final(self) == (Keyboard {
                key_mods: key_run(old(self).key_mods, keycode, action).mods,
                ..*old(self)
            }),
            final(outputs)@ == old(outputs)@ + key_run(
                old(self).key_mods,
                keycode,
                action,
            ).outputs,
            quit == key_run(old(self).key_mods, keycode, action).quit,
    {
        self.track_modifier(keycode, action);
        let mods = self.key_mods;
        if action == KeyAction::Repeat || action == KeyAction::Down {
            if let Some((plain, shifted)) = chars_from_keycode(keycode) {
                let character = if mods.shift { shifted } else { plain };
                outputs.push(
                    KeyboardOutput::Char { character, mods, repeat: action == KeyAction::Repeat },
                );
            }
        }
        outputs.push(KeyboardOutput::Trace { mods, action, key: keycode });
        if mods.alt && mods.ctrl && mods.shift && mods.logo && action == KeyAction::Down && keycode
            == KeyCode::KEY_ESC {
            return true;
        }
        if let Some(keycode) = keycode.to_macroquad_keycode() {
            match action {
                KeyAction::Up => {
                    outputs.push(KeyboardOutput::KeyUp { keycode, mods });
                },
                KeyAction::Down => {
                    outputs.push(KeyboardOutput::KeyDown { keycode, mods, repeat: false });
                },
                KeyAction::Repeat => {
                    outputs.push(KeyboardOutput::KeyUp { keycode, mods });
                    outputs.push(KeyboardOutput::KeyDown { keycode, mods, repeat: false });
                },
            }
        }
        false
    }

    /// Handles one event. What it leads to is added to `outputs`; the result says whether it
    /// ended the program.
    pub fn handle_event(&mut self, event: &InputEvent, outputs: &mut Vec<KeyboardOutput>) -> (quit:
        bool)
        ensures
            *final(self) == (Keyboard {
                key_mods: event_run(old(self).key_mods, *event).mods,
                ..*old(self)
            }),
            final(outputs)@ == old(outputs)@ + event_run(old(self).key_mods, *event).outputs,
            quit == event_run(old(self).key_mods, *event).quit,
    {
        match key_from_event(event) {
            Some((keycode, action)) => self.handle_key(keycode, action, outputs),
            None => false,
        }
    }

    /// Handles the events of one read, up to the one that ends the program, if any does.
    pub fn handle_events(&mut self, events: &[InputEvent]) -> (batch: KeyboardBatch)
        ensures
            *final(self) == (Keyboard {
                key_mods: events_run(old(self).key_mods, events@).mods,
                ..*old(self)
            }),
            batch.outputs@ == events_run(old(self).key_mods, events@).outputs,
            batch.quit == events_run(old(self).key_mods, events@).quit,
    {
        let mut outputs: Vec<KeyboardOutput> = Vec::new();
        let mut i: usize = 0;
        proof {
            assert(events@.skip(0) =~= events@);
        }
        while i < events.len()
            invariant
                i <= events@.len(),
                *self == (Keyboard { key_mods: self.key_mods, ..*old(self) }),
                ({
                    let whole = events_run(old(self).key_mods, events@);
                    let rest = events_run(self.key_mods, events@.skip(i as int));
                    whole =~= KeyboardRun {
                        mods: rest.mods,
                        outputs: outputs@ + rest.outputs,
                        quit: rest.quit,
                    }
                }),
            decreases events@.len() - i,
        {
            proof {
                assert(events@.skip(i as int).drop_first() =~= events@.skip(i + 1));
            }
            if self.handle_event(&events[i], &mut outputs) {
                return KeyboardBatch { outputs, quit: true };
            }
            i += 1;
        }
        KeyboardBatch { outputs, quit: false }
    }
}

/// `letter` if a modifier is held, nothing otherwise.
pub open spec fn letter_if(on: bool, letter: char) -> Seq<char> {
    if on {
        seq![letter]
    } else {
        Seq::empty()
    }
}

/// The held modifiers as a short text: `A` for alt, `S` for shift, `C` for control, `M` for
/// the logo key.
pub fn shortmods(mods: KeyMods) -> (text: String)
    ensures
        text@ == letter_if(mods.alt, 'A') + letter_if(mods.shift, 'S') + letter_if(mods.ctrl, 'C')
            + letter_if(mods.logo, 'M'),
{
    proof {
        reveal_strlit("A");
        reveal_strlit("S");
        reveal_strlit("C");
        reveal_strlit("M");
    }
    let mut text = String::new();
    if mods.alt {
        text.append("A");
    }
    if mods.shift {
        text.append("S");
    }
    if mods.ctrl {
        text.append("C");
    }
    if mods.logo {
        text.append("M");
    }
    assert(text@ =~= letter_if(mods.alt, 'A') + letter_if(mods.shift, 'S') + letter_if(
        mods.ctrl,
        'C',
    ) + letter_if(mods.logo, 'M'));
    text
}

/// `event` presses or releases a key of `modifier`.
pub open spec fn touches(event: InputEvent, modifier: Modifier) -> bool {
    match crate::input::event_key(event) {
        Some((key, action)) => modifier_of(key) == Some(modifier) && action != KeyAction::Repeat,
        None => false,
    }
}

/// `event` presses a key.
pub open spec fn presses(event: InputEvent) -> bool {
    crate::input::event_key(event) matches Some((key, action)) && action == KeyAction::Down
}

/// `i` is the last of `events` that presses or releases a key of `modifier`.
pub open spec fn last_touch(events: Seq<InputEvent>, modifier: Modifier, i: int) -> bool {
    &&& 0 <= i < events.len()
    &&& touches(events[i], modifier)
    &&& forall|j: int| i < j < events.len() ==> !touches(#[trigger] events[j], modifier)
}

/// A modifier is held after a batch exactly if the last press or release of one of its keys
/// was a press. Where no event touches it, it stays as it was.
pub proof fn law_last_touch_decides(mods: KeyMods, events: Seq<InputEvent>, modifier: Modifier)
    requires
        !events_run(mods, events).quit,
    ensures
        forall|i: int| #[trigger]
            last_touch(events, modifier, i) ==> held(events_run(mods, events).mods, modifier)
                == presses(events[i]),
        (forall|i: int| 0 <= i < events.len() ==> !touches(#[trigger] events[i], modifier)) ==> held(
            events_run(mods, events).mods,
            modifier,
        ) == held(mods, modifier),
    decreases events.len(),
{
    if events.len() > 0 {
        let first = event_run(mods, events[0]);
        let rest = events.drop_first();
        law_last_touch_decides(first.mods, rest, modifier);
        assert(held(first.mods, modifier) == if touches(events[0], modifier) {
            presses(events[0])
        } else {
            held(mods, modifier)
        });
        assert forall|i: int| #[trigger] last_touch(events, modifier, i) implies held(
            events_run(mods, events).mods,
            modifier,
        ) == presses(events[i]) by {
            if i == 0 {
                assert forall|j: int| 0 <= j < rest.len() implies !touches(
                    #[trigger] rest[j],
                    modifier,
                ) by {
                    assert(rest[j] == events[j + 1]);
                }
            } else {
                assert(rest[i - 1] == events[i]);
                assert forall|j: int| i - 1 < j < rest.len() implies !touches(
                    #[trigger] rest[j],
                    modifier,
                ) by {
                    assert(rest[j] == events[j + 1]);
                }
                assert(last_touch(rest, modifier, i - 1));
            }
        }
        if forall|i: int| 0 <= i < events.len() ==> !touches(#[trigger] events[i], modifier) {
            assert forall|j: int| 0 <= j < rest.len() implies !touches(
                #[trigger] rest[j],
                modifier,
            ) by {
                assert(rest[j] == events[j + 1]);
            }
            assert(!touches(events[0], modifier));
        }
    }
}

proof fn lemma_outputs_associate(
    a: Seq<KeyboardOutput>,
    b: Seq<KeyboardOutput>,
    c: Seq<KeyboardOutput>,
)
    ensures
        a + (b + c) == (a + b) + c,
{
    assert(a + (b + c) =~= (a + b) + c);
}

/// It does not matter how events are divided into reads: a batch that does not end the
/// program can be followed by another, and nothing follows one that does.
#[verifier::spinoff_prover]
pub proof fn law_batches_join(mods: KeyMods, first: Seq<InputEvent>, second: Seq<InputEvent>)
    ensures
        events_run(mods, first).quit ==> events_run(mods, first + second) == events_run(
            mods,
            first,
        ),
        !events_run(mods, first).quit ==> events_run(mods, first + second) == ({
            let before = events_run(mods, first);
            let after = events_run(before.mods, second);
            KeyboardRun {
                mods: after.mods,
                outputs: before.outputs + after.outputs,
                quit: after.quit,
            }
        }),
    decreases first.len(),
{
    if first.len() == 0 {
        assert(first + second =~= second);
        assert(Seq::<KeyboardOutput>::empty() + events_run(mods, second).outputs =~= events_run(
            mods,
            second,
        ).outputs);
    } else {
        let head = event_run(mods, first[0]);
        law_batches_join(head.mods, first.drop_first(), second);
        assert((first + second).drop_first() =~= first.drop_first() + second);
        let before = events_run(head.mods, first.drop_first());
        let after = events_run(before.mods, second);
        lemma_outputs_associate(head.outputs, before.outputs, after.outputs);
    }
}

/// A repeated key changes no modifier and is reported as released and pressed again.
pub proof fn law_repeat(mods: KeyMods, event: InputEvent)
    requires
        crate::input::event_key(event) matches Some((key, action)) && action == KeyAction::Repeat,
    ensures
        event_run(mods, event).mods == mods,
        !event_run(mods, event).quit,
        ({
            let key = (crate::input::event_key(event)->0).0;
            crate::keys::window_key(key.code() as int) matches Some(keycode) ==> event_run(
                mods,
                event,
            ).outputs.skip(event_run(mods, event).outputs.len() - 2) == seq![
                KeyboardOutput::KeyUp { keycode, mods },
                KeyboardOutput::KeyDown { keycode, mods, repeat: false },
            ]
        }),
{
    let key = (crate::input::event_key(event)->0).0;
    if crate::keys::window_key(key.code() as int) is Some {
        let outputs = event_run(mods, event).outputs;
        let keycode = crate::keys::window_key(key.code() as int)->0;
        assert(outputs.skip(outputs.len() - 2) =~= seq![
            KeyboardOutput::KeyUp { keycode, mods },
            KeyboardOutput::KeyDown { keycode, mods, repeat: false },
        ]);
    }
}

/// The modifiers that an output reports.
pub open spec fn reported_mods(output: KeyboardOutput) -> KeyMods {
    match output {
        KeyboardOutput::Char { mods, .. } => mods,
        KeyboardOutput::Trace { mods, .. } => mods,
        KeyboardOutput::KeyUp { mods, .. } => mods,
        KeyboardOutput::KeyDown { mods, .. } => mods,
    }
}

/// Everything an event leads to reports the modifiers held once the event has been taken
/// note of, and a released key types nothing.
pub proof fn law_outputs_report_current_mods(mods: KeyMods, event: InputEvent)
    ensures
        forall|i: int|
            0 <= i < event_run(mods, event).outputs.len() ==> reported_mods(
                #[trigger] event_run(mods, event).outputs[i],
            ) == event_run(mods, event).mods,
        forall|i: int|
            0 <= i < event_run(mods, event).outputs.len()
                && #[trigger] event_run(mods, event).outputs[i] is Char
                ==> (crate::input::event_key(event)->0).1 != KeyAction::Up,
{
}

/// A program can only be ended by pressing escape while every modifier is held.
pub proof fn law_quit_needs_every_modifier(mods: KeyMods, events: Seq<InputEvent>)
    requires
        events_run(mods, events).quit,
    ensures
        forall|modifier: Modifier| held(events_run(mods, events).mods, modifier),
        exists|i: int|
            0 <= i < events.len() && crate::input::event_key(#[trigger] events[i]) == Some(
                (KeyCode::KEY_ESC, KeyAction::Down),
            ),
    decreases events.len(),
{
    let first = event_run(mods, events[0]);
    if first.quit {
        assert(crate::input::event_key(events[0]) == Some((KeyCode::KEY_ESC, KeyAction::Down)));
        assert forall|modifier: Modifier| held(events_run(mods, events).mods, modifier) by {
            match modifier {
                Modifier::Ctrl => {},
                Modifier::Alt => {},
                Modifier::Shift => {},
                Modifier::Logo => {},
            }
        }
    } else {
        let rest = events.drop_first();
        law_quit_needs_every_modifier(first.mods, rest);
        assert forall|modifier: Modifier| held(events_run(mods, events).mods, modifier) by {
            assert(held(events_run(first.mods, rest).mods, modifier));
        }
        let i = choose|i: int|
            0 <= i < rest.len() && crate::input::event_key(#[trigger] rest[i]) == Some(
                (KeyCode::KEY_ESC, KeyAction::Down),
            );
        assert(rest[i] == events[i + 1]);
    }
}

/// The event by which a device reports `key` with `value`: 0 if it went up, 1 if it went down,
/// 2 if it repeats.
pub open spec fn key_event(key: KeyCode, value: i32) -> InputEvent {
    InputEvent { type_: 1, code: key.code(), value }
}

proof fn lemma_key_event(mods: KeyMods, key: KeyCode, value: i32)
    requires
        0 <= value <= 2,
    ensures
        event_run(mods, key_event(key, value)) == key_run(
            mods,
            key,
            if value == 0 {
                KeyAction::Up
            } else if value == 1 {
                KeyAction::Down
            } else {
                KeyAction::Repeat
            },
        ),
{
    crate::keys::law_code_round_trip(key);
}

/// A key that types a character types exactly one when it goes down and exactly one each time
/// it repeats, before anything else happens: the shifted one exactly if the modifiers that are
/// reported with it have shift held, the plain one otherwise.
#[verifier::spinoff_prover]
pub proof fn law_a_key_types_its_character(mods: KeyMods, key: KeyCode, value: i32)
    requires
        value == 1 || value == 2,
        crate::keys::us_layout(key.code() as int) is Some,
    ensures
        ({
            let run = event_run(mods, key_event(key, value));
            let chars = crate::keys::us_layout(key.code() as int)->0;
            &&& run.outputs.len() > 0
            &&& run.outputs[0] matches KeyboardOutput::Char { character, mods: reported, repeat }
                && {
                &&& reported == run.mods
                &&& repeat == (value == 2)
                &&& reported.shift ==> character == chars.1
                &&& !reported.shift ==> character == chars.0
            }
            &&& forall|i: int|
                0 < i < run.outputs.len() ==> !(#[trigger] run.outputs[i] is Char)
        }),
{
    lemma_key_event(mods, key, value);
}

/// A key types the same character when it repeats as when it goes down, and reports the same
/// modifiers.
#[verifier::spinoff_prover]
pub proof fn law_a_repeat_types_what_the_press_typed(mods: KeyMods, key: KeyCode)
    requires
        crate::keys::us_layout(key.code() as int) is Some,
    ensures
        ({
            let down = event_run(mods, key_event(key, 1)).outputs[0];
            let again = event_run(mods, key_event(key, 2)).outputs[0];
            &&& down matches KeyboardOutput::Char { character, mods: reported, repeat: false }
                && again == (KeyboardOutput::Char { character, mods: reported, repeat: true })
            &&& reported_mods(down) == mods
        }),
{
    lemma_key_event(mods, key, 1);
    lemma_key_event(mods, key, 2);
    lemma_typing_keys_are_no_modifiers(key);
}

proof fn lemma_typing_keys_are_no_modifiers(key: KeyCode)
    ensures
        crate::keys::us_layout(key.code() as int) is Some ==> modifier_of(key) is None,
{
}

/// A key that goes up types nothing, and neither does a key without a character.
#[verifier::spinoff_prover]
pub proof fn law_nothing_else_types(mods: KeyMods, key: KeyCode, value: i32)
    requires
        0 <= value <= 2,
        value == 0 || crate::keys::us_layout(key.code() as int) is None,
    ensures
        forall|i: int|
            0 <= i < event_run(mods, key_event(key, value)).outputs.len() ==> !(
            #[trigger] event_run(mods, key_event(key, value)).outputs[i] is Char),
{
    lemma_key_event(mods, key, value);
}

/// Each modifier follows its own two keys and nothing else: it is held once one of them goes
/// down and not held once one of them goes up. Repeats and other keys leave it alone.
#[verifier::spinoff_prover]
pub proof fn law_modifiers_follow_their_keys(mods: KeyMods, key: KeyCode, value: i32)
    requires
        0 <= value <= 2,
    ensures
        ({
            let after = event_run(mods, key_event(key, value)).mods;
            let is_ctrl = key == KeyCode::KEY_LEFTCTRL || key == KeyCode::KEY_RIGHTCTRL;
            let is_alt = key == KeyCode::KEY_LEFTALT || key == KeyCode::KEY_RIGHTALT;
            let is_shift = key == KeyCode::KEY_LEFTSHIFT || key == KeyCode::KEY_RIGHTSHIFT;
            let is_logo = key == KeyCode::KEY_LEFTMETA || key == KeyCode::KEY_RIGHTMETA;
            &&& is_ctrl && value == 1 ==> after.ctrl
            &&& is_ctrl && value == 0 ==> !after.ctrl
            &&& !is_ctrl || value == 2 ==> after.ctrl == mods.ctrl
            &&& is_alt && value == 1 ==> after.alt
            &&& is_alt && value == 0 ==> !after.alt
            &&& !is_alt || value == 2 ==> after.alt == mods.alt
            &&& is_shift && value == 1 ==> after.shift
            &&& is_shift && value == 0 ==> !after.shift
            &&& !is_shift || value == 2 ==> after.shift == mods.shift
            &&& is_logo && value == 1 ==> after.logo
            &&& is_logo && value == 0 ==> !after.logo
            &&& !is_logo || value == 2 ==> after.logo == mods.logo
        }),
{
    lemma_key_event(mods, key, value);
}

/// The program ends exactly if escape goes down while control, alt, shift and the logo key are
/// held.
#[verifier::spinoff_prover]
pub proof fn law_the_quit_combination(mods: KeyMods, key: KeyCode, value: i32)
    requires
        0 <= value <= 2,
    ensures
        event_run(mods, key_event(key, value)).quit <==> key == KeyCode::KEY_ESC && value == 1
            && mods.ctrl && mods.alt && mods.shift && mods.logo,
{
    lemma_key_event(mods, key, value);
}

/// After the character that a key types, if it types one, the key is logged once, and then the
/// handler is told of it by its name, if it has one: that it went up, that it went down, or
/// both where it repeats, never marked as a repeat. The keys that end the program are logged
/// but not passed on.
#[verifier::spinoff_prover]
pub proof fn law_how_the_handler_is_told(mods: KeyMods, key: KeyCode, value: i32)
    requires
        0 <= value <= 2,
    ensures
        ({
            let run = event_run(mods, key_event(key, value));
            let name = crate::keys::window_key(key.code() as int);
            let chars: int = if value != 0 && crate::keys::us_layout(key.code() as int) is Some {
                1
            } else {
                0
            };
            let told: int = if run.quit || name is None {
                0
            } else if value == 2 {
                2
            } else {
                1
            };
            let up = KeyboardOutput::KeyUp { keycode: name->0, mods: run.mods };
            let down = KeyboardOutput::KeyDown {
                keycode: name->0,
                mods: run.mods,
                repeat: false,
            };
            &&& run.outputs.len() == chars + 1 + told
            &&& run.outputs[chars] matches KeyboardOutput::Trace {
                mods: logged,
                action,
                key: logged_key,
            } && {
                &&& logged == run.mods
                &&& logged_key == key
                &&& action == KeyAction::Up <==> value == 0
                &&& action == KeyAction::Down <==> value == 1
            }
            &&& told > 0 && value == 0 ==> run.outputs[chars + 1] == up
            &&& told > 0 && value == 1 ==> run.outputs[chars + 1] == down
            &&& told > 0 && value == 2 ==> run.outputs[chars + 1] == up && run.outputs[chars + 2]
                == down
        }),
{
    lemma_key_event(mods, key, value);
}

/// Events that report no key change nothing: those of another kind, and those with a value
/// other than 0, 1 and 2.
pub proof fn law_other_events_are_ignored(mods: KeyMods, event: InputEvent)
    requires
        event.type_ != 1 || !(0 <= event.value <= 2),
    ensures
        event_run(mods, event).mods == mods,
        event_run(mods, event).outputs.len() == 0,
        !event_run(mods, event).quit,
{
    crate::input::law_what_an_event_reports(event);
}

/// A number that no key bears is handled as the unknown key is.
pub proof fn law_unassigned_numbers_are_the_unknown_key(mods: KeyMods, code: u16, value: i32)
    requires
        code == 84 || 195 <= code <= 199 || code >= 249,
    ensures
        event_run(mods, (InputEvent { type_: 1, code, value })) == event_run(
            mods,
            (InputEvent { type_: 1, code: 240, value }),
        ),
{
    crate::keys::law_lookup_is_exact(code);
}

/// Reading nothing does nothing, and reading one event does what that event does.
pub proof fn law_none_and_one(mods: KeyMods, event: InputEvent)
    ensures
        events_run(mods, Seq::empty()).mods == mods,
        events_run(mods, Seq::empty()).outputs.len() == 0,
        !events_run(mods, Seq::empty()).quit,
        events_run(mods, seq![event]) == event_run(mods, event),
{
    reveal_with_fuel(events_run, 2);
    let first = event_run(mods, event);
    assert(seq![event].drop_first() =~= Seq::empty());
    assert(first.outputs + Seq::<KeyboardOutput>::empty() =~= first.outputs);
    assert(events_run(mods, seq![event]) =~= first);
}

/// A held modifier has its letter in the short text, once; one that is not held has none.
pub proof fn law_letters_of_modifiers(on: bool, letter: char)
    ensures
        on ==> letter_if(on, letter).len() == 1 && letter_if(on, letter)[0] == letter,
        !on ==> letter_if(on, letter).len() == 0,
{
}

} // verus!

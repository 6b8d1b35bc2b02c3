//! Input devices: which files are devices, what kind of device each is, and which of them
//! have something to read.

use vstd::prelude::*;

use crate::keyboard::Keyboard;
use crate::os::is_readable;
use crate::text::{chars_of, parse_digits};

verus! {

/// `text` without a leading plus sign.
pub open spec fn without_sign(text: Seq<char>) -> Seq<char> {
    if text.len() > 0 && text[0] == '+' {
        text.drop_first()
    } else {
        text
    }
}

/// The text is a number of at most a machine word, possibly with a plus sign.
pub open spec fn is_number(text: Seq<char>) -> bool {
    without_sign(text).len() > 0 && crate::text::fits_word(without_sign(text))
}

/// The file name is that of an event device: `event` and a number.
pub open spec fn is_event_name(name: Seq<char>) -> bool {
    &&& name.len() >= 5
    &&& name.take(5) == "event"@
    &&& is_number(name.skip(5))
}

/// Whether a file name is that of an event device.
pub fn is_event_device(file_name: &str) -> (r: bool)
    ensures
        r == is_event_name(file_name@),
{
    proof {
        reveal_strlit("event");
    }
    let chars = chars_of(file_name);
    if chars.len() < 5 || chars[0] != 'e' || chars[1] != 'v' || chars[2] != 'e' || chars[3] != 'n'
        || chars[4] != 't' {
        proof {
            if chars@.len() >= 5 && chars@.take(5) == "event"@ {
                assert(chars@.take(5)[0] == 'e' && chars@.take(5)[1] == 'v' && chars@.take(5)[2]
                    == 'e' && chars@.take(5)[3] == 'n' && chars@.take(5)[4] == 't');
            }
        }
        return false;
    }
    assert(chars@.take(5) =~= "event"@);
    let start: usize = if chars.len() > 5 && chars[5] == '+' {
        6
    } else {
        5
    };
    let ghost rest = chars@.skip(5);
    proof {
        if chars@.len() > 5 && chars@[5] == '+' {
            assert(rest[0] == '+');
            assert(rest.drop_first() =~= chars@.skip(6));
        } else if chars@.len() > 5 {
            assert(rest[0] != '+');
        }
    }
    if start == chars.len() {
        return false;
    }
    match parse_digits(&chars, start) {
        Some(_) => true,
        None => false,
    }
}

/// What the probing of a device wants next.
#[derive(Debug, Copy, Clone, PartialEq, Eq, Structural)]
pub enum ProbeStep {
    /// Open the device.
    Open,
    /// Read the device's name.
    Name,
    /// Read the repeat settings, which only a keyboard has.
    Repeat,
    /// Read the range of the horizontal axis.
    AbsX,
    /// Read the range of the vertical axis.
    AbsY,
    /// Take the keyboard for exclusive use.
    GrabKeyboard,
    /// Take the pointing device for exclusive use.
    GrabMouse,
    /// The device could not be opened.
    Unavailable,
    /// The device could not be taken for exclusive use.
    Refused,
    /// The device is a keyboard.
    IsKeyboard,
    /// The device is a pointing device.
    IsMouse,
    /// The device is of no use. It stays open, for closing an event device is slow.
    IsOther,
}

/// What follows a step that gave `status`, which is negative if the step failed.
pub open spec fn probe_after(step: ProbeStep, status: i32) -> ProbeStep {
    let ok = status >= 0;
    match step {
        ProbeStep::Open => if ok { ProbeStep::Name } else { ProbeStep::Unavailable },
        ProbeStep::Name => ProbeStep::Repeat,
        ProbeStep::Repeat => if ok { ProbeStep::GrabKeyboard } else { ProbeStep::AbsX },
        ProbeStep::AbsX => if ok { ProbeStep::AbsY } else { ProbeStep::IsOther },
        ProbeStep::AbsY => if ok { ProbeStep::GrabMouse } else { ProbeStep::IsOther },
        ProbeStep::GrabKeyboard => if ok { ProbeStep::IsKeyboard } else { ProbeStep::Refused },
        ProbeStep::GrabMouse => if ok { ProbeStep::IsMouse } else { ProbeStep::Refused },
        _ => step,
    }
}

/// Goes on with the probing of a device after a step that gave `status`.
pub fn probe(step: ProbeStep, status: i32) -> (next: ProbeStep)
    ensures
        next == probe_after(step, status),
{
    let ok = 0 <= status;
    match step {
        ProbeStep::Open => if ok { ProbeStep::Name } else { ProbeStep::Unavailable },
        ProbeStep::Name => ProbeStep::Repeat,
        ProbeStep::Repeat => if ok { ProbeStep::GrabKeyboard } else { ProbeStep::AbsX },
        ProbeStep::AbsX => if ok { ProbeStep::AbsY } else { ProbeStep::IsOther },
        ProbeStep::AbsY => if ok { ProbeStep::GrabMouse } else { ProbeStep::IsOther },
        ProbeStep::GrabKeyboard => if ok { ProbeStep::IsKeyboard } else { ProbeStep::Refused },
        ProbeStep::GrabMouse => if ok { ProbeStep::IsMouse } else { ProbeStep::Refused },
        ProbeStep::Unavailable => ProbeStep::Unavailable,
        ProbeStep::Refused => ProbeStep::Refused,
        ProbeStep::IsKeyboard => ProbeStep::IsKeyboard,
        ProbeStep::IsMouse => ProbeStep::IsMouse,
        ProbeStep::IsOther => ProbeStep::IsOther,
    }
}

/// Where probing ends after `steps` steps if each step gives the status that `status` says.
pub open spec fn probe_run(
    step: ProbeStep,
    status: spec_fn(ProbeStep) -> i32,
    steps: nat,
) -> ProbeStep
    decreases steps,
{
    if steps == 0 {
        step
    } else {
        probe_run(probe_after(step, status(step)), status, (steps - 1) as nat)
    }
}

/// What a device is depends on the answers alone: one with repeat settings is a keyboard,
/// one without them but with both axes is a pointing device, and either must let itself be
/// taken. Probing ends after at most six steps.
pub proof fn law_probe_classifies(status: spec_fn(ProbeStep) -> i32)
    ensures
        ({
            let end = probe_run(ProbeStep::Open, status, 6);
            let opens = status(ProbeStep::Open) >= 0;
            let repeats = status(ProbeStep::Repeat) >= 0;
            let points = status(ProbeStep::AbsX) >= 0 && status(ProbeStep::AbsY) >= 0;
            if !opens {
                end == ProbeStep::Unavailable
            } else if repeats {
                end == if status(ProbeStep::GrabKeyboard) >= 0 {
                    ProbeStep::IsKeyboard
                } else {
                    ProbeStep::Refused
                }
            } else if points {
                end == if status(ProbeStep::GrabMouse) >= 0 {
                    ProbeStep::IsMouse
                } else {
                    ProbeStep::Refused
                }
            } else {
                end == ProbeStep::IsOther
            }
        }),
{
    reveal_with_fuel(probe_run, 7);
}

/// A device with something to read, by its position among its kind.
#[derive(Debug, Copy, Clone, PartialEq, Eq, Structural)]
pub enum InputSource {
    Keyboard(usize),
    Mouse(usize),
}

/// The file descriptors to poll: those of the keyboards, then those of the pointing devices.
pub fn poll_fds(keyboards: &Vec<Keyboard>, mouse_fds: &Vec<i32>) -> (fds: Vec<i32>)
    ensures
        fds@ == keyboards@.map_values(|keyboard: Keyboard| keyboard.fd) + mouse_fds@,
{
    let mut fds: Vec<i32> = Vec::new();
    let ghost keyboard_fds = keyboards@.map_values(|keyboard: Keyboard| keyboard.fd);
    let mut i: usize = 0;
    while i < keyboards.len()
        invariant
            i <= keyboards@.len(),
            keyboard_fds == keyboards@.map_values(|keyboard: Keyboard| keyboard.fd),
            fds@ == keyboard_fds.take(i as int),
        decreases keyboards@.len() - i,
    {
        fds.push(keyboards[i].fd);
        i += 1;
        assert(fds@ =~= keyboard_fds.take(i as int));
    }
    assert(keyboard_fds.take(i as int) =~= keyboard_fds);
    let mut j: usize = 0;
    assert(mouse_fds@.take(0) =~= Seq::empty());
    while j < mouse_fds.len()
        invariant
            j <= mouse_fds@.len(),
            fds@ == keyboard_fds + mouse_fds@.take(j as int),
        decreases mouse_fds@.len() - j,
    {
        fds.push(mouse_fds[j]);
        j += 1;
        assert(fds@ =~= keyboard_fds + mouse_fds@.take(j as int));
    }
    assert(mouse_fds@.take(j as int) =~= mouse_fds@);
    fds
}

/// The device that the poll entry at `index` belongs to, where there are `keyboards`
/// keyboards.
pub open spec fn source_at(index: int, keyboards: int) -> InputSource {
    if index < keyboards {
        InputSource::Keyboard(index as usize)
    } else {
        InputSource::Mouse((index - keyboards) as usize)
    }
}

/// The poll entries and the devices are in the same order: an entry's file descriptor is that
/// of the device that the entry belongs to.
pub proof fn law_poll_entry_belongs_to_source(
    keyboards: Seq<Keyboard>,
    mouse_fds: Seq<i32>,
    index: int,
)
    requires
        keyboards.len() <= usize::MAX,
        mouse_fds.len() <= usize::MAX,
        0 <= index < keyboards.len() + mouse_fds.len(),
    ensures
        (keyboards.map_values(|keyboard: Keyboard| keyboard.fd) + mouse_fds)[index] == (
        match source_at(index, keyboards.len() as int) {
            InputSource::Keyboard(i) => keyboards[i as int].fd,
            InputSource::Mouse(i) => mouse_fds[i as int],
        }),
{
}

/// The devices that have something to read, given what a poll reported for the first `count`
/// entries.
pub open spec fn sources(revents: Seq<i16>, keyboards: int, count: int) -> Seq<InputSource>
    decreases count,
{
    if count <= 0 {
        Seq::empty()
    } else {
        let before = sources(revents, keyboards, count - 1);
        if crate::os::readable(revents[count - 1]) {
            before.push(source_at(count - 1, keyboards))
        } else {
            before
        }
    }
}

/// The devices that have something to read, given what a poll of them all reported: the
/// keyboards first, each kind in its order.
pub fn readable_sources(revents: &Vec<i16>, keyboards: usize) -> (ready: Vec<InputSource>)
    ensures
        ready@ == sources(revents@, keyboards as int, revents@.len() as int),
{
    let mut ready: Vec<InputSource> = Vec::new();
    let mut i: usize = 0;
    while i < revents.len()
        invariant
            i <= revents@.len(),
            ready@ == sources(revents@, keyboards as int, i as int),
        decreases revents@.len() - i,
    {
        if is_readable(revents[i]) {
            let source = if i < keyboards {
                InputSource::Keyboard(i)
            } else {
                InputSource::Mouse(i - keyboards)
            };
            ready.push(source);
        }
        i += 1;
    }
    ready
}

/// The device to read next, once the first `done` of the devices that have something to read
/// have been read. None is read once the keys that end the program have been pressed.
pub fn next_source(ready: &Vec<InputSource>, done: usize, quit: bool) -> (next: Option<InputSource>)
    ensures
        next == if quit || done >= ready@.len() {
            None
        } else {
            Some(ready@[done as int])
        },
{
    if quit || done >= ready.len() {
        None
    } else {
        Some(ready[done])
    }
}

/// A device is read exactly if its own poll entry says that there is something to read.
pub proof fn law_sources_are_the_readable(revents: Seq<i16>, keyboards: int, mice: int)
    requires
        0 <= keyboards <= usize::MAX,
        0 <= mice <= usize::MAX,
        revents.len() == keyboards + mice,
    ensures
        forall|i: usize|
            0 <= i < keyboards ==> (#[trigger] sources(
                revents,
                keyboards,
                revents.len() as int,
            ).contains(InputSource::Keyboard(i)) <==> crate::os::readable(revents[i as int])),
        forall|i: usize|
            0 <= i < mice ==> (#[trigger] sources(
                revents,
                keyboards,
                revents.len() as int,
            ).contains(InputSource::Mouse(i)) <==> crate::os::readable(revents[keyboards + i])),
{
    let ready = sources(revents, keyboards, revents.len() as int);
    assert forall|i: usize| 0 <= i < keyboards implies (#[trigger] ready.contains(
        InputSource::Keyboard(i),
    ) <==> crate::os::readable(revents[i as int])) by {
        lemma_sources(revents, keyboards, revents.len() as int, i as int);
    }
    assert forall|i: usize| 0 <= i < mice implies (#[trigger] ready.contains(
        InputSource::Mouse(i),
    ) <==> crate::os::readable(revents[keyboards + i])) by {
        lemma_sources(revents, keyboards, revents.len() as int, keyboards + i);
    }
}

proof fn lemma_sources(revents: Seq<i16>, keyboards: int, count: int, i: int)
    requires
        0 <= keyboards <= usize::MAX,
        0 <= count <= revents.len(),
        count - keyboards <= usize::MAX,
        0 <= i <= keyboards + usize::MAX,
    ensures
        sources(revents, keyboards, count).contains(source_at(i, keyboards)) <==> i < count
            && crate::os::readable(revents[i]),
    decreases count,
{
    if count > 0 {
        lemma_sources(revents, keyboards, count - 1, i);
        let before = sources(revents, keyboards, count - 1);
        let last = source_at(count - 1, keyboards);
        if crate::os::readable(revents[count - 1]) {
            let all = before.push(last);
            assert(all[before.len() as int] == last);
            if i == count - 1 {
                assert(all.contains(last));
            } else {
                assert(source_at(i, keyboards) != last);
                if before.contains(source_at(i, keyboards)) {
                    let k = choose|k: int|
                        0 <= k < before.len() && before[k] == source_at(i, keyboards);
                    assert(all[k] == source_at(i, keyboards));
                }
            }
        }
    }
}

/// A device is opened, named and asked for repeat settings. With them it is taken as a
/// keyboard; without them it is asked for its horizontal and then its vertical axis, and taken
/// as a pointing device if it has both. A failed name does not matter, and a step fails exactly
/// if its status is negative.
pub proof fn law_order_of_probing(status: i32)
    ensures
        ({
            let ok = status >= 0;
            &&& ok ==> probe_after(ProbeStep::Open, status) == ProbeStep::Name
            &&& !ok ==> probe_after(ProbeStep::Open, status) == ProbeStep::Unavailable
            &&& probe_after(ProbeStep::Name, status) == ProbeStep::Repeat
            &&& ok ==> probe_after(ProbeStep::Repeat, status) == ProbeStep::GrabKeyboard
            &&& !ok ==> probe_after(ProbeStep::Repeat, status) == ProbeStep::AbsX
            &&& ok ==> probe_after(ProbeStep::AbsX, status) == ProbeStep::AbsY
            &&& !ok ==> probe_after(ProbeStep::AbsX, status) == ProbeStep::IsOther
            &&& ok ==> probe_after(ProbeStep::AbsY, status) == ProbeStep::GrabMouse
            &&& !ok ==> probe_after(ProbeStep::AbsY, status) == ProbeStep::IsOther
            &&& ok ==> probe_after(ProbeStep::GrabKeyboard, status) == ProbeStep::IsKeyboard
            &&& ok ==> probe_after(ProbeStep::GrabMouse, status) == ProbeStep::IsMouse
            &&& !ok ==> probe_after(ProbeStep::GrabKeyboard, status) == ProbeStep::Refused
            &&& !ok ==> probe_after(ProbeStep::GrabMouse, status) == ProbeStep::Refused
        }),
{
}

/// The position of a device's poll entry: the keyboards come first.
pub open spec fn entry_of(source: InputSource, keyboards: int) -> int {
    match source {
        InputSource::Keyboard(i) => i as int,
        InputSource::Mouse(i) => keyboards + i,
    }
}

/// The devices that have something to read are read in the order of their poll entries, each
/// once, and each belongs to an entry whose lowest flag is set. Where every entry has that
/// flag, every device is read.
pub proof fn law_sources_are_in_order(revents: Seq<i16>, keyboards: int, count: int)
    requires
        0 <= keyboards <= usize::MAX,
        0 <= count <= revents.len(),
        count - keyboards <= usize::MAX,
    ensures
        ({
            let ready = sources(revents, keyboards, count);
            &&& ready.len() <= count
            &&& (forall|i: int| 0 <= i < count ==> (#[trigger] revents[i]) & 1 != 0)
                ==> ready.len() == count
            &&& forall|k: int|
                0 <= k < ready.len() ==> {
                    &&& 0 <= entry_of(#[trigger] ready[k], keyboards) < count
                    &&& revents[entry_of(ready[k], keyboards)] & 1 != 0
                    &&& ready[k] is Keyboard <==> entry_of(ready[k], keyboards) < keyboards
                }
            &&& forall|k: int, l: int|
                0 <= k < l < ready.len() ==> entry_of(#[trigger] ready[k], keyboards) < entry_of(
                    #[trigger] ready[l],
                    keyboards,
                )
        }),
    decreases count,
{
    if count > 0 {
        law_sources_are_in_order(revents, keyboards, count - 1);
        let before = sources(revents, keyboards, count - 1);
        let ready = sources(revents, keyboards, count);
        let last = source_at(count - 1, keyboards);
        assert(entry_of(last, keyboards) == count - 1);
        assert forall|k: int| 0 <= k < ready.len() implies {
            &&& 0 <= entry_of(#[trigger] ready[k], keyboards) < count
            &&& revents[entry_of(ready[k], keyboards)] & 1 != 0
            &&& ready[k] is Keyboard <==> entry_of(ready[k], keyboards) < keyboards
        } by {
            if k < before.len() {
                assert(ready[k] == before[k]);
            } else {
                assert(ready[k] == last);
            }
        }
        assert forall|k: int, l: int| 0 <= k < l < ready.len() implies entry_of(
            #[trigger] ready[k],
            keyboards,
        ) < entry_of(#[trigger] ready[l], keyboards) by {
            assert(ready[k] == before[k]);
            if l < before.len() {
                assert(ready[l] == before[l]);
            } else {
                assert(ready[l] == last);
            }
        }
        if forall|i: int| 0 <= i < count ==> (#[trigger] revents[i]) & 1 != 0 {
            assert(revents[count - 1] & 1 != 0);
        }
    }
}

/// A text of at least one digit that stands for a number of at most a machine word.
pub open spec fn is_plain_number(text: Seq<char>) -> bool {
    &&& text.len() > 0
    &&& forall|i: int| 0 <= i < text.len() ==> '0' <= #[trigger] text[i] <= '9'
    &&& crate::text::decimal_value(text) <= usize::MAX
}

/// The names of event devices are exactly `event` and a number behind it, which may have one
/// plus sign before it.
pub proof fn law_names_of_event_devices(number: Seq<char>, name: Seq<char>)
    ensures
        is_event_name("event"@ + number) <==> is_plain_number(number) || (number.len() > 0
            && number[0] == '+' && is_plain_number(number.skip(1))),
        is_event_name(name) ==> name == "event"@ + name.skip(5),
{
    reveal_strlit("event");
    assert(("event"@ + number).take(5) =~= "event"@);
    assert(("event"@ + number).skip(5) =~= number);
    if number.len() > 0 {
        assert(number.skip(1) =~= number.drop_first());
    }
    let text = without_sign(number);
    assert(is_number(number) == is_plain_number(text)) by {
        if is_plain_number(text) {
            assert forall|i: int| 0 <= i < text.len() implies crate::text::is_digit(
                #[trigger] text[i],
            ) by {}
        }
        if is_number(number) {
            assert forall|i: int| 0 <= i < text.len() implies '0' <= #[trigger] text[i] <= '9' by {
                assert(crate::text::is_digit(text[i]));
            }
        }
    }
    if number.len() > 0 && number[0] == '+' {
        assert(!is_plain_number(number));
    }
    if is_event_name(name) {
        assert(name =~= name.take(5) + name.skip(5));
    }
}

} // verus!

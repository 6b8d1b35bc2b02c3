use linux_drm::devices::{
    is_event_device, next_source, poll_fds, probe, readable_sources, InputSource, ProbeStep,
};
use linux_drm::keyboard::{Keyboard, KeyboardRepeat};
use linux_drm::os::is_readable;

#[test]
fn event_device_names() {
    for name in ["event0", "event17", "event007", "event+3", "event18446744073709551615"] {
        assert!(is_event_device(name), "{name}");
    }
    for name in [
        "", "event", "event+", "event-1", "event1a", "event 1", "even1", "mouse0", "xevent0",
        "Event0", "event++1", "event1_0", "event18446744073709551616", "event\u{663}",
    ] {
        assert!(!is_event_device(name), "{name}");
    }
}

#[test]
fn event_device_names_are_those_that_parse() {
    for suffix in ["", "0", "12", "+12", "-0", "1 ", "0x1", "99999999999999999999", "1e3", "+"] {
        let name = format!("event{suffix}");
        assert_eq!(is_event_device(&name), suffix.parse::<usize>().is_ok(), "{name}");
    }
}

fn run(status: impl Fn(ProbeStep) -> i32) -> (Vec<ProbeStep>, ProbeStep) {
    let mut step = ProbeStep::Open;
    let mut steps = Vec::new();
    while probe(step, status(step)) != step {
        steps.push(step);
        step = probe(step, status(step));
    }
    (steps, step)
}

#[test]
fn a_device_that_repeats_is_a_keyboard() {
    let (steps, end) = run(|_| 0);
    assert_eq!(end, ProbeStep::IsKeyboard);
    assert_eq!(
        steps,
        vec![ProbeStep::Open, ProbeStep::Name, ProbeStep::Repeat, ProbeStep::GrabKeyboard]
    );
}

#[test]
fn a_device_without_a_name_is_probed_all_the_same() {
    assert_eq!(probe(ProbeStep::Name, -1), ProbeStep::Repeat);
    assert_eq!(probe(ProbeStep::Name, 12), ProbeStep::Repeat);
}

#[test]
fn a_device_with_both_axes_is_a_mouse() {
    let (steps, end) = run(|step| if step == ProbeStep::Repeat { -1 } else { 0 });
    assert_eq!(end, ProbeStep::IsMouse);
    assert_eq!(
        steps,
        vec![
            ProbeStep::Open,
            ProbeStep::Name,
            ProbeStep::Repeat,
            ProbeStep::AbsX,
            ProbeStep::AbsY,
            ProbeStep::GrabMouse,
        ]
    );
}

#[test]
fn other_devices() {
    let end = |failing: &[ProbeStep]| run(|step| if failing.contains(&step) { -1 } else { 3 }).1;
    assert_eq!(end(&[ProbeStep::Open]), ProbeStep::Unavailable);
    assert_eq!(end(&[ProbeStep::Repeat, ProbeStep::AbsX]), ProbeStep::IsOther);
    assert_eq!(end(&[ProbeStep::Repeat, ProbeStep::AbsY]), ProbeStep::IsOther);
    assert_eq!(end(&[ProbeStep::GrabKeyboard]), ProbeStep::Refused);
    assert_eq!(end(&[ProbeStep::Repeat, ProbeStep::GrabMouse]), ProbeStep::Refused);
}

fn keyboard(fd: i32) -> Keyboard {
    Keyboard::new(None, String::new(), KeyboardRepeat::default(), fd)
}

#[test]
fn keyboards_are_polled_first() {
    assert_eq!(poll_fds(&vec![keyboard(8), keyboard(4)], &vec![5, 9]), vec![8, 4, 5, 9]);
    assert_eq!(poll_fds(&vec![], &vec![5]), vec![5]);
    assert!(poll_fds(&vec![], &vec![]).is_empty());
}

#[test]
fn readable_flag() {
    assert!(is_readable(libc::POLLIN));
    assert!(is_readable(libc::POLLIN | libc::POLLHUP));
    assert!(!is_readable(0));
    assert!(!is_readable(libc::POLLERR | libc::POLLHUP));
}

#[test]
fn sources_of_poll_entries() {
    let ready = readable_sources(&vec![0, libc::POLLIN, libc::POLLIN, libc::POLLERR, 1], 2);
    assert_eq!(
        ready,
        vec![InputSource::Keyboard(1), InputSource::Mouse(0), InputSource::Mouse(2)]
    );
    assert!(readable_sources(&vec![0, 0], 1).is_empty());
}

#[test]
fn reading_stops_at_the_keys_that_end_the_program() {
    let ready = vec![InputSource::Keyboard(1), InputSource::Mouse(0)];
    assert_eq!(next_source(&ready, 0, false), Some(InputSource::Keyboard(1)));
    assert_eq!(next_source(&ready, 1, false), Some(InputSource::Mouse(0)));
    assert_eq!(next_source(&ready, 2, false), None);
    assert_eq!(next_source(&ready, 1, true), None);
    assert_eq!(next_source(&vec![], 0, false), None);
}

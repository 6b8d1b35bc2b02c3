use linux_drm::main_loop::{next_step, LoopEvent, LoopStep};
use linux_drm::present::{
    wait_for_flip, FrameEvent, FrameStep, Presenter, WaitEvent, WaitStep,
};

#[test]
fn a_first_frame() {
    let mut presenter = Presenter::new();
    assert_eq!(presenter.begin(), FrameStep::Swap);
    assert_eq!(presenter.advance(FrameEvent::Returned(1)), FrameStep::Lock);
    assert_eq!(
        presenter.advance(FrameEvent::Locked { buffer: 7 }),
        FrameStep::LookUp { buffer: 7 }
    );
    assert_eq!(
        presenter.advance(FrameEvent::Stored { found: None }),
        FrameStep::Add { buffer: 7 }
    );
    assert_eq!(
        presenter.advance(FrameEvent::Added { status: 0, framebuffer: 40 }),
        FrameStep::Show { buffer: 7, framebuffer: 40 }
    );
    assert_eq!(
        presenter.advance(FrameEvent::Returned(0)),
        FrameStep::Store { buffer: 7, framebuffer: 40 }
    );
    assert_eq!(presenter.advance(FrameEvent::Done), FrameStep::Flip { framebuffer: 40 });
    assert_eq!(
        presenter.advance(FrameEvent::Returned(0)),
        FrameStep::Finished { flip_pending: true }
    );
    assert_eq!(presenter.held, Some(7));
}

#[test]
fn a_later_frame_releases_the_last_buffer() {
    let mut presenter =
        Presenter { held: Some(7), step: FrameStep::Finished { flip_pending: true } };
    assert_eq!(presenter.begin(), FrameStep::Release { buffer: 7 });
    assert_eq!(presenter.held, None);
    assert_eq!(presenter.advance(FrameEvent::Done), FrameStep::Swap);
    assert_eq!(presenter.advance(FrameEvent::Returned(1)), FrameStep::Lock);
    assert_eq!(presenter.held, None);
    presenter.advance(FrameEvent::Locked { buffer: 8 });
    assert_eq!(presenter.held, Some(8));
    assert_eq!(
        presenter.advance(FrameEvent::Stored { found: Some(41) }),
        FrameStep::Flip { framebuffer: 41 }
    );
    assert_eq!(
        presenter.advance(FrameEvent::Returned(-16)),
        FrameStep::Finished { flip_pending: false }
    );
}

#[test]
fn frames_that_fail() {
    let at = |step, event| Presenter { held: Some(7), step }.advance(event);
    assert_eq!(at(FrameStep::Swap, FrameEvent::Returned(0)), FrameStep::Aborted);
    assert_eq!(at(FrameStep::Lock, FrameEvent::Locked { buffer: 0 }), FrameStep::Aborted);
    assert_eq!(
        at(FrameStep::Add { buffer: 7 }, FrameEvent::Added { status: -22, framebuffer: 0 }),
        FrameStep::Aborted
    );
    assert_eq!(
        at(FrameStep::Show { buffer: 7, framebuffer: 1 }, FrameEvent::Returned(-1)),
        FrameStep::Aborted
    );
}

#[test]
fn waiting_for_a_flip() {
    let polled = |count, errno, revents| wait_for_flip(WaitEvent::Polled { count, errno, revents });
    assert_eq!(wait_for_flip(WaitEvent::Checked { waiting: true }), WaitStep::Poll);
    assert_eq!(
        wait_for_flip(WaitEvent::Checked { waiting: false }),
        WaitStep::Finished { flipped: true }
    );
    assert_eq!(wait_for_flip(WaitEvent::Handled), WaitStep::Check);
    assert_eq!(polled(1, 0, libc::POLLIN), WaitStep::Handle);
    assert_eq!(polled(1, 0, libc::POLLERR), WaitStep::Check);
    assert_eq!(polled(0, 0, 0), WaitStep::Finished { flipped: false });
    assert_eq!(polled(-1, libc::EINTR, 0), WaitStep::Check);
    assert_eq!(polled(-1, libc::ENOMEM, 0), WaitStep::Failed { errno: libc::ENOMEM });
}

fn turn(
    quit_ordered: bool,
    keyboards: usize,
    elapsed_secs: u64,
    count: i32,
    errno: i32,
    quit: bool,
    requested: bool,
    still_requested: bool,
) -> Vec<LoopStep> {
    let mut step = LoopStep::Check;
    let mut steps = Vec::new();
    loop {
        steps.push(step);
        let event = match step {
            LoopStep::Check => LoopEvent::Checked { quit_ordered, keyboards, elapsed_secs },
            LoopStep::Poll => LoopEvent::Polled { count, errno },
            LoopStep::Dispatch => LoopEvent::Dispatched { quit },
            LoopStep::CheckQuit => LoopEvent::QuitChecked { requested, ordered: quit_ordered },
            LoopStep::AskHandler => LoopEvent::HandlerAsked { requested: still_requested },
            LoopStep::Stop | LoopStep::PollFailed { .. } => return steps,
            _ => LoopEvent::Done,
        };
        step = next_step(step, event);
        if step == LoopStep::Check {
            return steps;
        }
    }
}

#[test]
fn a_quiet_turn() {
    assert_eq!(
        turn(false, 1, 0, 0, 0, false, false, false),
        vec![
            LoopStep::Check,
            LoopStep::TakeRequests,
            LoopStep::Poll,
            LoopStep::CheckQuit,
            LoopStep::Update,
            LoopStep::Draw,
            LoopStep::Present,
            LoopStep::Wait,
        ]
    );
}

#[test]
fn a_turn_with_input_and_a_request_to_quit() {
    assert_eq!(
        turn(false, 1, 0, 2, 0, false, true, true),
        vec![
            LoopStep::Check,
            LoopStep::TakeRequests,
            LoopStep::Poll,
            LoopStep::Dispatch,
            LoopStep::CheckQuit,
            LoopStep::AskHandler,
            LoopStep::OrderQuit,
            LoopStep::Update,
            LoopStep::Draw,
            LoopStep::Present,
            LoopStep::Wait,
        ]
    );
    let withdrawn = turn(false, 1, 0, 0, 0, false, true, false);
    assert!(withdrawn.contains(&LoopStep::AskHandler));
    assert!(!withdrawn.contains(&LoopStep::OrderQuit));
}

#[test]
fn the_handler_is_not_asked_once_the_program_is_told_to_end() {
    let ordered = LoopEvent::QuitChecked { requested: true, ordered: true };
    assert_eq!(next_step(LoopStep::CheckQuit, ordered), LoopStep::Update);
}

#[test]
fn turns_that_stop() {
    assert_eq!(
        turn(true, 1, 0, 0, 0, false, false, false),
        vec![LoopStep::Check, LoopStep::Stop]
    );
    assert_eq!(
        turn(false, 0, 2, 0, 0, false, false, false),
        vec![LoopStep::Check, LoopStep::Stop]
    );
    assert_eq!(
        turn(false, 1, 0, 1, 0, true, true, true),
        vec![
            LoopStep::Check,
            LoopStep::TakeRequests,
            LoopStep::Poll,
            LoopStep::Dispatch,
            LoopStep::Stop,
        ]
    );
}

#[test]
fn a_program_waits_for_a_keyboard() {
    assert_eq!(turn(false, 0, 1, 0, 0, false, false, false).last(), Some(&LoopStep::Wait));
    assert_eq!(turn(false, 1, 99, 0, 0, false, false, false).last(), Some(&LoopStep::Wait));
}

#[test]
fn polls_that_fail() {
    let interrupted = turn(false, 1, 0, -1, libc::EINTR, true, false, false);
    assert_eq!(interrupted.last(), Some(&LoopStep::Wait));
    assert!(!interrupted.contains(&LoopStep::Dispatch));
    let failed = turn(false, 1, 0, -1, libc::EFAULT, false, false, false);
    assert_eq!(failed.last(), Some(&LoopStep::PollFailed { errno: libc::EFAULT }));
}

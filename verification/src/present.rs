//! Presenting frames: who owns the buffers, when a frame is shown, and what is left to do at
//! the end.

use vstd::prelude::*;

use crate::drm::{drmModeConnector, drmModeCrtc};
use crate::os::{is_readable, libc_eintr};
use crate::setup::{restored_config, CrtcConfig};

verus! {

/// The depth of a framebuffer's colours in bits.
pub const FRAMEBUFFER_DEPTH: u8 = 24;

/// The size of a framebuffer's pixels in bits.
pub const FRAMEBUFFER_BITS_PER_PIXEL: u8 = 32;

/// The flag that asks for an event when a page flip is done.
pub const DRM_MODE_PAGE_FLIP_EVENT: u32 = 0x1;

/// What presenting a frame wants next. Buffers are known by a number, which is 0 for none.
#[derive(Debug, Copy, Clone, PartialEq, Eq, Structural)]
pub enum FrameStep {
    /// Give the buffer of the last frame back to the surface.
    Release { buffer: u64 },
    /// Finish the drawing of the frame.
    Swap,
    /// Take the buffer that holds the frame from the surface.
    Lock,
    /// Look up the framebuffer that was stored with the buffer.
    LookUp { buffer: u64 },
    /// Make a framebuffer of the buffer.
    Add { buffer: u64 },
    /// Let the CRTC show the framebuffer.
    Show { buffer: u64, framebuffer: u32 },
    /// Store the framebuffer with the buffer, to be removed when the buffer is destroyed.
    Store { buffer: u64, framebuffer: u32 },
    /// Show the framebuffer from the next refresh on.
    Flip { framebuffer: u32 },
    /// The frame is presented. A page flip may be under way.
    Finished { flip_pending: bool },
    /// A step failed that must not.
    Aborted,
}

/// What came of a step.
#[derive(Debug, Copy, Clone, PartialEq, Eq, Structural)]
pub enum FrameEvent {
    /// The step, which cannot fail, was done.
    Done,
    /// The number that the step returned.
    Returned(i32),
    /// The buffer that was locked.
    Locked { buffer: u64 },
    /// The framebuffer that was stored with the buffer, if there is one.
    Stored { found: Option<u32> },
    /// The number that adding a framebuffer returned, and the framebuffer.
    Added { status: i32, framebuffer: u32 },
}

/// The owner of the surface's buffers.
#[derive(Debug, Copy, Clone, PartialEq, Eq, Structural)]
pub struct Presenter {
    /// The buffer that is taken from the surface.
    pub held: Option<u64>,
    /// What was asked for last.
    pub step: FrameStep,
}

/// The event is an answer to the step.
pub open spec fn answers(step: FrameStep, event: FrameEvent) -> bool {
    match step {
        FrameStep::Release { .. } | FrameStep::Store { .. } => event is Done,
        FrameStep::Swap | FrameStep::Show { .. } | FrameStep::Flip { .. } => event is Returned,
        FrameStep::Lock => event is Locked,
        FrameStep::LookUp { .. } => event is Stored,
        FrameStep::Add { .. } => event is Added,
        FrameStep::Finished { .. } | FrameStep::Aborted => false,
    }
}

/// `next` if a step went well; otherwise the frame is aborted.
pub open spec fn unless_failed(good: bool, next: FrameStep) -> FrameStep {
    if good {
        next
    } else {
        FrameStep::Aborted
    }
}

impl Presenter {
    /// The state at the start of a frame.
    pub open spec fn begun(self) -> Presenter {
        Presenter {
            held: None,
            step: match self.held {
                Some(buffer) => FrameStep::Release { buffer },
                None => FrameStep::Swap,
            },
        }
    }

    /// The state after an event.
    pub open spec fn after(self, event: FrameEvent) -> Presenter {
        match (self.step, event) {
            (FrameStep::Release { .. }, FrameEvent::Done) => Presenter {
                step: FrameStep::Swap,
                ..self
            },
            (FrameStep::Swap, FrameEvent::Returned(status)) => Presenter {
                step: unless_failed(status == 1, FrameStep::Lock),
                ..self
            },
            (FrameStep::Lock, FrameEvent::Locked { buffer }) => Presenter {
                held: Some(buffer),
                step: unless_failed(buffer != 0, FrameStep::LookUp { buffer }),
            },
            (FrameStep::LookUp { buffer }, FrameEvent::Stored { found }) => Presenter {
                step: match found {
                    Some(framebuffer) => FrameStep::Flip { framebuffer },
                    None => FrameStep::Add { buffer },
                },
                ..self
            },
            (FrameStep::Add { buffer }, FrameEvent::Added { status, framebuffer }) => Presenter {
                step: unless_failed(status == 0, FrameStep::Show { buffer, framebuffer }),
                ..self
            },
            (
                FrameStep::Show { buffer, framebuffer },
                FrameEvent::Returned(status),
            ) => Presenter {
                step: unless_failed(status == 0, FrameStep::Store { buffer, framebuffer }),
                ..self
            },
            (FrameStep::Store { framebuffer, .. }, FrameEvent::Done) => Presenter {
                step: FrameStep::Flip { framebuffer },
                ..self
            },
            (FrameStep::Flip { .. }, FrameEvent::Returned(status)) => Presenter {
                step: FrameStep::Finished { flip_pending: status == 0 },
                ..self
            },
            _ => self,
        }
    }

    /// A presenter that has not presented anything.
    pub fn new() -> (presenter: Presenter)
        ensures
            presenter == (Presenter {
                held: None,
                step: FrameStep::Finished { flip_pending: false },
            }),
    {
        Presenter { held: None, step: FrameStep::Finished { flip_pending: false } }
    }

    /// Begins to present a frame.
    pub fn begin(&mut self) -> (step: FrameStep)
        requires
            old(self).step is Finished,
        ensures
            *final(self) == old(self).begun(),
            step == final(self).step,
    {
        self.step = match self.held {
            Some(buffer) => FrameStep::Release { buffer },
            None => FrameStep::Swap,
        };
        self.held = None;
        self.step
    }

    /// Goes on with presenting a frame after what came of the last step.
    pub fn advance(&mut self, event: FrameEvent) -> (step: FrameStep)
        requires
            answers(old(self).step, event),
        ensures
            *final(self) == old(self).after(event),
            step == final(self).step,
    {
        let next = match (self.step, event) {
            (FrameStep::Release { .. }, FrameEvent::Done) => FrameStep::Swap,
            (FrameStep::Swap, FrameEvent::Returned(status)) => if status == 1 {
                FrameStep::Lock
            } else {
                FrameStep::Aborted
            },
            (FrameStep::Lock, FrameEvent::Locked { buffer }) => {
                self.held = Some(buffer);
                if buffer != 0 {
                    FrameStep::LookUp { buffer }
                } else {
                    FrameStep::Aborted
                }
            },
            (
                FrameStep::LookUp { buffer },
                FrameEvent::Stored { found },
            ) => match found {
                Some(framebuffer) => FrameStep::Flip { framebuffer },
                None => FrameStep::Add { buffer },
            },
            (
                FrameStep::Add { buffer },
                FrameEvent::Added { status, framebuffer },
            ) => if status == 0 {
                FrameStep::Show { buffer, framebuffer }
            } else {
                FrameStep::Aborted
            },
            (
                FrameStep::Show { buffer, framebuffer },
                FrameEvent::Returned(status),
            ) => if status == 0 {
                FrameStep::Store { buffer, framebuffer }
            } else {
                FrameStep::Aborted
            },
            (FrameStep::Store { framebuffer, .. }, FrameEvent::Done) => FrameStep::Flip {
                framebuffer,
            },
            (FrameStep::Flip { .. }, FrameEvent::Returned(status)) => FrameStep::Finished {
                flip_pending: status == 0,
            },
            _ => self.step,
        };
        self.step = next;
        next
    }
}

/// The presenter holds a buffer exactly from the moment at which it is locked, and works on
/// the one that it holds.
pub open spec fn buffers_consistent(presenter: Presenter) -> bool {
    match presenter.step {
        FrameStep::Release { .. } | FrameStep::Swap | FrameStep::Lock => presenter.held is None,
        FrameStep::LookUp { buffer }
        | FrameStep::Add { buffer }
        | FrameStep::Show { buffer, .. }
        | FrameStep::Store { buffer, .. } => presenter.held == Some(buffer),
        FrameStep::Flip { .. } => presenter.held is Some,
        FrameStep::Finished { .. } | FrameStep::Aborted => true,
    }
}

/// A buffer is only locked while none is held, and every held buffer is released at the start
/// of the next frame: beginning a frame and every step keep this up.
pub proof fn law_one_buffer_held(presenter: Presenter, event: FrameEvent)
    ensures
        buffers_consistent(presenter.begun()),
        presenter.held matches Some(buffer) ==> presenter.begun().step == (FrameStep::Release {
            buffer,
        }),
        buffers_consistent(presenter) ==> buffers_consistent(presenter.after(event)),
        buffers_consistent(presenter) && presenter.step is Lock ==> presenter.held is None,
{
}

/// What came of the steps of a frame.
pub ghost struct FrameAnswers {
    pub swap: i32,
    pub buffer: u64,
    pub stored: Option<u32>,
    pub add: i32,
    pub added: u32,
    pub show: i32,
    pub flip: i32,
}

/// What came of the step that was asked for.
pub open spec fn frame_event(step: FrameStep, frame: FrameAnswers) -> FrameEvent {
    match step {
        FrameStep::Swap => FrameEvent::Returned(frame.swap),
        FrameStep::Lock => FrameEvent::Locked { buffer: frame.buffer },
        FrameStep::LookUp { .. } => FrameEvent::Stored { found: frame.stored },
        FrameStep::Add { .. } => FrameEvent::Added { status: frame.add, framebuffer: frame.added },
        FrameStep::Show { .. } => FrameEvent::Returned(frame.show),
        FrameStep::Flip { .. } => FrameEvent::Returned(frame.flip),
        _ => FrameEvent::Done,
    }
}

/// The state after at most `steps` further steps of a frame.
pub open spec fn frame_run(presenter: Presenter, frame: FrameAnswers, steps: nat) -> Presenter
    decreases steps,
{
    if steps == 0 || presenter.step is Finished || presenter.step is Aborted {
        presenter
    } else {
        frame_run(
            presenter.after(frame_event(presenter.step, frame)),
            frame,
            (steps - 1) as nat,
        )
    }
}

/// A frame ends after at most eight steps. It is presented exactly if drawing it succeeds, a
/// buffer can be locked, and that buffer has a framebuffer or gets one that can be shown. The
/// buffer is then held, and a page flip is under way if one could be started.
pub proof fn law_frame_is_presented(presenter: Presenter, frame: FrameAnswers)
    ensures
        ({
            let end = frame_run(presenter.begun(), frame, 8);
            let presented = frame.swap == 1 && frame.buffer != 0 && (frame.stored is Some || (
            frame.add == 0 && frame.show == 0));
            if presented {
                &&& end.held == Some(frame.buffer)
                &&& end.step == (FrameStep::Finished { flip_pending: frame.flip == 0 })
            } else {
                end.step == FrameStep::Aborted
            }
        }),
{
    reveal_with_fuel(frame_run, 9);
}

/// What waiting for a page flip wants next.
#[derive(Debug, Copy, Clone, PartialEq, Eq, Structural)]
pub enum WaitStep {
    /// See whether a page flip is under way.
    Check,
    /// Poll the card.
    Poll,
    /// Handle the card's event.
    Handle,
    /// Waiting is over. The page flip is done unless time ran out.
    Finished { flipped: bool },
    /// Polling failed with this error number.
    Failed { errno: i32 },
}

/// What came of a step.
#[derive(Debug, Copy, Clone, PartialEq, Eq, Structural)]
pub enum WaitEvent {
    /// Whether a page flip is under way.
    Checked { waiting: bool },
    /// What polling returned, the error number, and what it reported for the card.
    Polled { count: i32, errno: i32, revents: i16 },
    /// The event was handled.
    Handled,
}

/// What follows a poll: an interrupted poll is repeated, an event is handled, and a poll that
/// reports nothing has run out of time.
pub open spec fn wait_after_poll(count: i32, errno: i32, revents: i16) -> WaitStep {
    if count < 0 {
        if errno == crate::os::eintr() {
            WaitStep::Check
        } else {
            WaitStep::Failed { errno }
        }
    } else if crate::os::readable(revents) {
        WaitStep::Handle
    } else if count == 0 {
        WaitStep::Finished { flipped: false }
    } else {
        WaitStep::Check
    }
}

/// What follows an event while waiting for a page flip.
pub open spec fn wait_after(event: WaitEvent) -> WaitStep {
    match event {
        WaitEvent::Checked { waiting } => if waiting {
            WaitStep::Poll
        } else {
            WaitStep::Finished { flipped: true }
        },
        WaitEvent::Polled { count, errno, revents } => wait_after_poll(count, errno, revents),
        WaitEvent::Handled => WaitStep::Check,
    }
}

/// Goes on with waiting for a page flip. Waiting starts with [`WaitStep::Check`].
pub fn wait_for_flip(event: WaitEvent) -> (step: WaitStep)
    ensures
        step == wait_after(event),
{
    match event {
        WaitEvent::Checked { waiting } => if waiting {
            WaitStep::Poll
        } else {
            WaitStep::Finished { flipped: true }
        },
        WaitEvent::Polled { count, errno, revents } => {
            if count < 0 {
                if errno == libc_eintr() {
                    WaitStep::Check
                } else {
                    WaitStep::Failed { errno }
                }
            } else if is_readable(revents) {
                WaitStep::Handle
            } else if count == 0 {
                WaitStep::Finished { flipped: false }
            } else {
                WaitStep::Check
            }
        },
        WaitEvent::Handled => WaitStep::Check,
    }
}

/// Waiting reports a finished page flip only once none is under way any more.
pub proof fn law_flipped_means_not_waiting(event: WaitEvent)
    ensures
        wait_after(event) == (WaitStep::Finished { flipped: true }) <==> event == (
        WaitEvent::Checked { waiting: false }),
{
}

/// What is left to do when the program ends.
#[derive(Debug, Copy, Clone)]
pub enum CleanupStep {
    /// Make no context current.
    ReleaseContext,
    /// Destroy the EGL context.
    DestroyContext,
    /// Destroy the EGL surface.
    DestroyWindowSurface,
    /// Shut EGL down.
    TerminateEgl,
    /// Let the CRTC show what it showed before. This must not fail.
    RestoreCrtc(CrtcConfig),
    /// Give the buffer of the last frame back to the surface.
    ReleaseBuffer { buffer: u64 },
    /// Destroy the surface.
    DestroySurface,
    /// Destroy the buffer device.
    DestroyDevice,
    /// Close the card.
    CloseCard,
}

/// The buffer of the last frame is given back, if there is one.
pub open spec fn release_of(held: Option<u64>) -> Seq<CleanupStep> {
    match held {
        Some(buffer) => seq![CleanupStep::ReleaseBuffer { buffer }],
        None => Seq::empty(),
    }
}

/// What is left to do when the program ends, in order.
pub fn cleanup(presenter: &Presenter, crtc: &drmModeCrtc, connector: &drmModeConnector) -> (steps:
    Vec<CleanupStep>)
    ensures
        steps@ == seq![
            CleanupStep::ReleaseContext,
            CleanupStep::DestroyContext,
            CleanupStep::DestroyWindowSurface,
            CleanupStep::TerminateEgl,
            CleanupStep::RestoreCrtc(
                CrtcConfig {
                    crtc_id: crtc.crtc_id,
                    buffer_id: crtc.buffer_id,
                    x: crtc.x,
                    y: crtc.y,
                    connector_id: connector.connector_id,
                    mode: crtc.mode,
                },
            ),
        ] + release_of(presenter.held) + seq![
            CleanupStep::DestroySurface,
            CleanupStep::DestroyDevice,
            CleanupStep::CloseCard,
        ],
{
    let mut steps: Vec<CleanupStep> = Vec::new();
    steps.push(CleanupStep::ReleaseContext);
    steps.push(CleanupStep::DestroyContext);
    steps.push(CleanupStep::DestroyWindowSurface);
    steps.push(CleanupStep::TerminateEgl);
    steps.push(CleanupStep::RestoreCrtc(restored_config(crtc, connector)));
    if let Some(buffer) = presenter.held {
        steps.push(CleanupStep::ReleaseBuffer { buffer });
    }
    steps.push(CleanupStep::DestroySurface);
    steps.push(CleanupStep::DestroyDevice);
    steps.push(CleanupStep::CloseCard);
    steps
}

/// The steps of a frame from the present one on, up to its end or `limit` steps.
pub open spec fn frame_steps(presenter: Presenter, frame: FrameAnswers, limit: nat) -> Seq<
    FrameStep,
>
    decreases limit,
{
    if limit == 0 {
        Seq::empty()
    } else if presenter.step is Finished || presenter.step is Aborted {
        seq![presenter.step]
    } else {
        seq![presenter.step] + frame_steps(
            presenter.after(frame_event(presenter.step, frame)),
            frame,
            (limit - 1) as nat,
        )
    }
}

/// A frame whose buffer has a framebuffer already is drawn, locked, looked up and flipped to
/// that framebuffer. The last frame's buffer, if there is one, is given back before.
pub proof fn law_steps_of_a_known_buffer(held: Option<u64>, frame: FrameAnswers, stored: u32)
    requires
        frame.swap == 1,
        frame.buffer != 0,
        frame.stored == Some(stored),
    ensures
        ({
            let start = Presenter { held, step: FrameStep::Finished { flip_pending: false } };
            frame_steps(start.begun(), frame, 9) == (match held {
                Some(buffer) => seq![FrameStep::Release { buffer }],
                None => Seq::empty(),
            }) + seq![
                FrameStep::Swap,
                FrameStep::Lock,
                FrameStep::LookUp { buffer: frame.buffer },
                FrameStep::Flip { framebuffer: stored },
                FrameStep::Finished { flip_pending: frame.flip == 0 },
            ]
        }),
{
    reveal_with_fuel(frame_steps, 10);
    let start = Presenter { held, step: FrameStep::Finished { flip_pending: false } };
    assert(frame_steps(start.begun(), frame, 9) =~= (match held {
        Some(buffer) => seq![FrameStep::Release { buffer }],
        None => Seq::empty(),
    }) + seq![
        FrameStep::Swap,
        FrameStep::Lock,
        FrameStep::LookUp { buffer: frame.buffer },
        FrameStep::Flip { framebuffer: stored },
        FrameStep::Finished { flip_pending: frame.flip == 0 },
    ]);
}

/// A frame whose buffer is new gets a framebuffer, which is shown, stored with that buffer and
/// flipped to. The last frame's buffer, if there is one, is given back before.
pub proof fn law_steps_of_a_new_buffer(held: Option<u64>, frame: FrameAnswers)
    requires
        frame.swap == 1,
        frame.buffer != 0,
        frame.stored is None,
        frame.add == 0,
        frame.show == 0,
    ensures
        ({
            let start = Presenter { held, step: FrameStep::Finished { flip_pending: false } };
            frame_steps(start.begun(), frame, 9) == (match held {
                Some(buffer) => seq![FrameStep::Release { buffer }],
                None => Seq::empty(),
            }) + seq![
                FrameStep::Swap,
                FrameStep::Lock,
                FrameStep::LookUp { buffer: frame.buffer },
                FrameStep::Add { buffer: frame.buffer },
                FrameStep::Show { buffer: frame.buffer, framebuffer: frame.added },
                FrameStep::Store { buffer: frame.buffer, framebuffer: frame.added },
                FrameStep::Flip { framebuffer: frame.added },
                FrameStep::Finished { flip_pending: frame.flip == 0 },
            ]
        }),
{
    reveal_with_fuel(frame_steps, 10);
    let start = Presenter { held, step: FrameStep::Finished { flip_pending: false } };
    assert(frame_steps(start.begun(), frame, 9) =~= (match held {
        Some(buffer) => seq![FrameStep::Release { buffer }],
        None => Seq::empty(),
    }) + seq![
        FrameStep::Swap,
        FrameStep::Lock,
        FrameStep::LookUp { buffer: frame.buffer },
        FrameStep::Add { buffer: frame.buffer },
        FrameStep::Show { buffer: frame.buffer, framebuffer: frame.added },
        FrameStep::Store { buffer: frame.buffer, framebuffer: frame.added },
        FrameStep::Flip { framebuffer: frame.added },
        FrameStep::Finished { flip_pending: frame.flip == 0 },
    ]);
}

/// Drawing succeeds with 1, adding and showing a framebuffer with 0, and every buffer but 0 can
/// be used: any other answer ends the frame at once, and these do not.
pub proof fn law_which_answers_end_a_frame(
    held: Option<u64>,
    buffer: u64,
    framebuffer: u32,
    answer: i32,
)
    ensures
        ({
            let at = |step: FrameStep| Presenter { held, step };
            let returned = FrameEvent::Returned(answer);
            let added = FrameEvent::Added { status: answer, framebuffer };
            &&& at(FrameStep::Swap).after(returned).step == FrameStep::Aborted <==> answer != 1
            &&& at(FrameStep::Swap).after(returned).step == FrameStep::Lock <==> answer == 1
            &&& at(FrameStep::Lock).after(FrameEvent::Locked { buffer }).step == FrameStep::Aborted
                <==> buffer == 0
            &&& at(FrameStep::Lock).after(FrameEvent::Locked { buffer }).held == Some(buffer)
            &&& at(FrameStep::Add { buffer }).after(added).step == FrameStep::Aborted <==> answer
                != 0
            &&& at(FrameStep::Show { buffer, framebuffer }).after(returned).step
                == FrameStep::Aborted <==> answer != 0
            &&& at(FrameStep::Flip { framebuffer }).after(returned).step == (
            FrameStep::Finished { flip_pending: answer == 0 })
        }),
{
}

/// Only locking a buffer changes which one is held.
pub proof fn law_only_locking_takes_a_buffer(presenter: Presenter, event: FrameEvent)
    requires
        presenter.step != FrameStep::Lock,
    ensures
        presenter.after(event).held == presenter.held,
{
}

/// Waiting polls exactly while a page flip is under way, and looks again after an event was
/// handled.
pub proof fn law_waiting_polls_while_a_flip_is_under_way(waiting: bool)
    ensures
        waiting ==> wait_after(WaitEvent::Checked { waiting }) == WaitStep::Poll,
        !waiting ==> wait_after(WaitEvent::Checked { waiting }) == (WaitStep::Finished {
            flipped: true,
        }),
        wait_after(WaitEvent::Handled) == WaitStep::Check,
{
}

/// A poll that fails is repeated if it was interrupted, which the error number 4 says, and
/// otherwise ends the program with its error number. A poll that succeeds leads to an event
/// exactly if the lowest flag is set; if not, it has run out of time if it counts nothing, and
/// is repeated if it counts something.
pub proof fn law_what_follows_a_poll_of_the_card(count: i32, errno: i32, revents: i16)
    ensures
        ({
            let next = wait_after(WaitEvent::Polled { count, errno, revents });
            &&& next is Failed <==> count < 0 && errno != 4
            &&& next is Failed ==> next == (WaitStep::Failed { errno })
            &&& next == WaitStep::Handle <==> count >= 0 && revents & 1 != 0
            &&& next == (WaitStep::Finished { flipped: false }) <==> count == 0 && revents & 1 == 0
            &&& next == WaitStep::Check <==> (count < 0 && errno == 4) || (count > 0 && revents & 1
                == 0)
        }),
{
}

/// At the end exactly the buffer that is held is given back.
pub proof fn law_the_held_buffer_is_given_back(held: Option<u64>)
    ensures
        held matches Some(buffer) ==> release_of(held) == seq![
            CleanupStep::ReleaseBuffer { buffer },
        ],
        held is None ==> release_of(held).len() == 0,
{
}

/// A framebuffer's pixels have four bytes, of which three are colours, and the first flag asks
/// for the event of a page flip.
pub proof fn law_numbers_of_framebuffers()
    ensures
        FRAMEBUFFER_BITS_PER_PIXEL == 4 * 8,
        FRAMEBUFFER_DEPTH == 3 * 8,
        DRM_MODE_PAGE_FLIP_EVENT == 1,
{
}

/// A frame begins by giving back the buffer that is held, and otherwise with its drawing; then
/// none is held. How the last frame ended does not matter.
pub proof fn law_how_a_frame_begins(presenter: Presenter)
    ensures
        presenter.begun().held is None,
        presenter.held is None ==> presenter.begun().step == FrameStep::Swap,
        presenter.held matches Some(buffer) ==> presenter.begun().step == (FrameStep::Release {
            buffer,
        }),
{
}

/// Every step takes every answer of its kind.
pub proof fn law_answers_to_steps(buffer: u64, framebuffer: u32, number: i32, found: Option<u32>)
    ensures
        answers(FrameStep::Release { buffer }, FrameEvent::Done),
        answers(FrameStep::Swap, FrameEvent::Returned(number)),
        answers(FrameStep::Lock, FrameEvent::Locked { buffer }),
        answers(FrameStep::LookUp { buffer }, FrameEvent::Stored { found }),
        answers(FrameStep::Add { buffer }, FrameEvent::Added { status: number, framebuffer }),
        answers(FrameStep::Show { buffer, framebuffer }, FrameEvent::Returned(number)),
        answers(FrameStep::Store { buffer, framebuffer }, FrameEvent::Done),
        answers(FrameStep::Flip { framebuffer }, FrameEvent::Returned(number)),
{
}

} // verus!

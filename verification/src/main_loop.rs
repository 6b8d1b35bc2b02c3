//! The main loop: what a turn consists of and when the program ends.

use vstd::prelude::*;

use crate::os::libc_eintr;

verus! {

/// How long a turn waits for input, in milliseconds.
pub const POLL_TIMEOUT_MILLIS: i32 = 3;

/// How long the program waits for a keyboard, in seconds.
pub const KEYBOARD_GRACE_SECS: u64 = 1;

/// What the main loop wants next.
#[derive(Debug, Copy, Clone, PartialEq, Eq, Structural)]
pub enum LoopStep {
    /// See whether the program has been told to end and whether there is a keyboard.
    Check,
    /// Take the program's requests. None of them has an effect.
    TakeRequests,
    /// Poll the input devices.
    Poll,
    /// Read the devices that have something to read.
    Dispatch,
    /// See whether the program has been asked to end.
    CheckQuit,
    /// Tell the handler that the program has been asked to end.
    AskHandler,
    /// Tell the program to end.
    OrderQuit,
    /// Let the handler update its state.
    Update,
    /// Let the handler draw.
    Draw,
    /// Present the frame.
    Present,
    /// Wait until the frame is shown.
    Wait,
    /// The program ends.
    Stop,
    /// Polling failed with this error number.
    PollFailed { errno: i32 },
}

/// What came of a step.
#[derive(Debug, Copy, Clone, PartialEq, Eq, Structural)]
pub enum LoopEvent {
    /// The step was done.
    Done,
    /// Whether the program has been told to end, how many keyboards there are, and for how
    /// many seconds the program has been running.
    Checked { quit_ordered: bool, keyboards: usize, elapsed_secs: u64 },
    /// What polling returned, and the error number.
    Polled { count: i32, errno: i32 },
    /// Whether the key combination that ends the program was pressed.
    Dispatched { quit: bool },
    /// Whether the program has been asked and whether it has been told to end.
    QuitChecked { requested: bool, ordered: bool },
    /// Whether the program is still asked to end now that the handler knows.
    HandlerAsked { requested: bool },
}

/// The event is an answer to the step.
pub open spec fn answers(step: LoopStep, event: LoopEvent) -> bool {
    match step {
        LoopStep::Check => event is Checked,
        LoopStep::Poll => event is Polled,
        LoopStep::Dispatch => event is Dispatched,
        LoopStep::CheckQuit => event is QuitChecked,
        LoopStep::AskHandler => event is HandlerAsked,
        LoopStep::Stop | LoopStep::PollFailed { .. } => false,
        _ => event is Done,
    }
}

/// The program ends: it has been told to, or it still has no keyboard.
pub open spec fn must_stop(quit_ordered: bool, keyboards: usize, elapsed_secs: u64) -> bool {
    quit_ordered || (keyboards == 0 && elapsed_secs > KEYBOARD_GRACE_SECS)
}

/// What follows a poll of the input devices. A poll may be interrupted.
pub open spec fn after_poll(count: i32, errno: i32) -> LoopStep {
    if count > 0 {
        LoopStep::Dispatch
    } else if count < 0 && errno != crate::os::eintr() {
        LoopStep::PollFailed { errno }
    } else {
        LoopStep::CheckQuit
    }
}

/// What follows an event.
pub open spec fn step_after(step: LoopStep, event: LoopEvent) -> LoopStep {
    match (step, event) {
        (
            LoopStep::Check,
            LoopEvent::Checked { quit_ordered, keyboards, elapsed_secs },
        ) => if must_stop(quit_ordered, keyboards, elapsed_secs) {
            LoopStep::Stop
        } else {
            LoopStep::TakeRequests
        },
        (LoopStep::TakeRequests, _) => LoopStep::Poll,
        (LoopStep::Poll, LoopEvent::Polled { count, errno }) => after_poll(count, errno),
        (LoopStep::Dispatch, LoopEvent::Dispatched { quit }) => if quit {
            LoopStep::Stop
        } else {
            LoopStep::CheckQuit
        },
        (
            LoopStep::CheckQuit,
            LoopEvent::QuitChecked { requested, ordered },
        ) => if requested && !ordered {
            LoopStep::AskHandler
        } else {
            LoopStep::Update
        },
        (LoopStep::AskHandler, LoopEvent::HandlerAsked { requested }) => if requested {
            LoopStep::OrderQuit
        } else {
            LoopStep::Update
        },
        (LoopStep::OrderQuit, _) => LoopStep::Update,
        (LoopStep::Update, _) => LoopStep::Draw,
        (LoopStep::Draw, _) => LoopStep::Present,
        (LoopStep::Present, _) => LoopStep::Wait,
        (LoopStep::Wait, _) => LoopStep::Check,
        _ => step,
    }
}

/// Goes on with the main loop after what came of the last step. It starts with
/// [`LoopStep::Check`].
pub fn next_step(step: LoopStep, event: LoopEvent) -> (next: LoopStep)
    requires
        answers(step, event),
    ensures
        next == step_after(step, event),
{
    match (step, event) {
        (LoopStep::Check, LoopEvent::Checked { quit_ordered, keyboards, elapsed_secs }) => {
            if quit_ordered || (keyboards == 0 && elapsed_secs > KEYBOARD_GRACE_SECS) {
                LoopStep::Stop
            } else {
                LoopStep::TakeRequests
            }
        },
        (LoopStep::TakeRequests, _) => LoopStep::Poll,
        (LoopStep::Poll, LoopEvent::Polled { count, errno }) => {
            if count == 0 {
                LoopStep::CheckQuit
            } else if count < 0 {
                if errno == libc_eintr() {
                    LoopStep::CheckQuit
                } else {
                    LoopStep::PollFailed { errno }
                }
            } else {
                LoopStep::Dispatch
            }
        },
        (LoopStep::Dispatch, LoopEvent::Dispatched { quit }) => {
            if quit {
                LoopStep::Stop
            } else {
                LoopStep::CheckQuit
            }
        },
        (LoopStep::CheckQuit, LoopEvent::QuitChecked { requested, ordered }) => {
            if requested && !ordered {
                LoopStep::AskHandler
            } else {
                LoopStep::Update
            }
        },
        (LoopStep::AskHandler, LoopEvent::HandlerAsked { requested }) => {
            if requested {
                LoopStep::OrderQuit
            } else {
                LoopStep::Update
            }
        },
        (LoopStep::OrderQuit, _) => LoopStep::Update,
        (LoopStep::Update, _) => LoopStep::Draw,
        (LoopStep::Draw, _) => LoopStep::Present,
        (LoopStep::Present, _) => LoopStep::Wait,
        (LoopStep::Wait, _) => LoopStep::Check,
        _ => step,
    }
}

/// What came of the steps of a turn.
pub ghost struct TurnAnswers {
    pub quit_ordered: bool,
    pub keyboards: usize,
    pub elapsed_secs: u64,
    pub poll_count: i32,
    pub poll_errno: i32,
    pub quit_pressed: bool,
    pub quit_requested: bool,
    /// The program was told to end since the turn began.
    pub ordered_meanwhile: bool,
    pub still_requested: bool,
}

/// What came of the step that was asked for.
pub open spec fn turn_event(step: LoopStep, turn: TurnAnswers) -> LoopEvent {
    match step {
        LoopStep::Check => LoopEvent::Checked {
            quit_ordered: turn.quit_ordered,
            keyboards: turn.keyboards,
            elapsed_secs: turn.elapsed_secs,
        },
        LoopStep::Poll => LoopEvent::Polled { count: turn.poll_count, errno: turn.poll_errno },
        LoopStep::Dispatch => LoopEvent::Dispatched { quit: turn.quit_pressed },
        LoopStep::CheckQuit => LoopEvent::QuitChecked {
            requested: turn.quit_requested,
            ordered: turn.quit_ordered || turn.ordered_meanwhile,
        },
        LoopStep::AskHandler => LoopEvent::HandlerAsked { requested: turn.still_requested },
        _ => LoopEvent::Done,
    }
}

/// The steps of a turn from `step` on, up to the next turn, the end of the program or `limit`
/// steps.
pub open spec fn turn_steps(step: LoopStep, turn: TurnAnswers, limit: nat) -> Seq<LoopStep>
    decreases limit,
{
    let next = step_after(step, turn_event(step, turn));
    if limit == 0 {
        Seq::empty()
    } else if step is Stop || step is PollFailed || next is Check {
        seq![step]
    } else {
        seq![step] + turn_steps(next, turn, (limit - 1) as nat)
    }
}

/// What a turn does with a request to end: the handler is told once and may withdraw it. Where
/// the program has been told to end anyway, the handler is not asked.
pub open spec fn quit_steps(turn: TurnAnswers) -> Seq<LoopStep> {
    if !turn.quit_requested || turn.ordered_meanwhile {
        seq![LoopStep::CheckQuit]
    } else if !turn.still_requested {
        seq![LoopStep::CheckQuit, LoopStep::AskHandler]
    } else {
        seq![LoopStep::CheckQuit, LoopStep::AskHandler, LoopStep::OrderQuit]
    }
}

/// A turn that does not end the program takes the requests, polls, reads what there is to
/// read, deals with a request to end, and then updates, draws, presents and waits, each once
/// and in this order.
pub proof fn law_turn_order(turn: TurnAnswers)
    requires
        !must_stop(turn.quit_ordered, turn.keyboards, turn.elapsed_secs),
        turn.poll_count >= 0 || turn.poll_errno == crate::os::eintr(),
        turn.poll_count > 0 ==> !turn.quit_pressed,
    ensures
        turn_steps(LoopStep::Check, turn, 11) == seq![
            LoopStep::Check,
            LoopStep::TakeRequests,
            LoopStep::Poll,
        ] + (if turn.poll_count > 0 {
            seq![LoopStep::Dispatch]
        } else {
            Seq::empty()
        }) + quit_steps(turn) + seq![
            LoopStep::Update,
            LoopStep::Draw,
            LoopStep::Present,
            LoopStep::Wait,
        ],
{
    reveal_with_fuel(turn_steps, 12);
    assert(turn_steps(LoopStep::Check, turn, 11) =~= seq![
        LoopStep::Check,
        LoopStep::TakeRequests,
        LoopStep::Poll,
    ] + (if turn.poll_count > 0 {
        seq![LoopStep::Dispatch]
    } else {
        Seq::empty()
    }) + quit_steps(turn) + seq![
        LoopStep::Update,
        LoopStep::Draw,
        LoopStep::Present,
        LoopStep::Wait,
    ]);
}

/// A turn that ends the program neither updates nor draws nor presents: it stops when it is
/// told to, when no keyboard has turned up, or right after the keys that end the program.
pub proof fn law_no_frame_after_stop(turn: TurnAnswers)
    requires
        must_stop(turn.quit_ordered, turn.keyboards, turn.elapsed_secs) || (turn.poll_count > 0
            && turn.quit_pressed),
    ensures
        turn_steps(LoopStep::Check, turn, 11).last() == LoopStep::Stop,
        forall|i: int|
            0 <= i < turn_steps(LoopStep::Check, turn, 11).len() ==> !(#[trigger] turn_steps(
                LoopStep::Check,
                turn,
                11,
            )[i] is Update || turn_steps(LoopStep::Check, turn, 11)[i] is Draw || turn_steps(
                LoopStep::Check,
                turn,
                11,
            )[i] is Present),
{
    reveal_with_fuel(turn_steps, 12);
}

/// The program ends at the start of a turn exactly if it has been told to, or if there is no
/// keyboard and more than one second has passed. As long as there is a keyboard, no time ends
/// it.
pub proof fn law_when_the_program_ends(quit_ordered: bool, keyboards: usize, elapsed_secs: u64)
    ensures
        ({
            let next = step_after(
                LoopStep::Check,
                LoopEvent::Checked { quit_ordered, keyboards, elapsed_secs },
            );
            &&& next == LoopStep::Stop || next == LoopStep::TakeRequests
            &&& next == LoopStep::Stop <==> quit_ordered || (keyboards == 0 && elapsed_secs > 1)
            &&& keyboards > 0 && !quit_ordered ==> next == LoopStep::TakeRequests
            &&& elapsed_secs <= 1 && !quit_ordered ==> next == LoopStep::TakeRequests
        }),
{
}

/// More keyboards or less time never end a program that would have gone on.
pub proof fn law_keyboards_keep_the_program_running(
    fewer: usize,
    more: usize,
    sooner: u64,
    later: u64,
)
    requires
        fewer <= more,
        sooner <= later,
        step_after(
            LoopStep::Check,
            LoopEvent::Checked { quit_ordered: false, keyboards: fewer, elapsed_secs: later },
        ) == LoopStep::TakeRequests,
    ensures
        step_after(
            LoopStep::Check,
            LoopEvent::Checked { quit_ordered: false, keyboards: more, elapsed_secs: sooner },
        ) == LoopStep::TakeRequests,
{
}

/// The devices are read exactly if the poll counts one with something to read. A poll that
/// fails ends the program unless it was interrupted, which the error number 4 says; the error
/// number does not matter otherwise.
pub proof fn law_what_follows_a_poll(count: i32, errno: i32)
    ensures
        ({
            let next = step_after(LoopStep::Poll, LoopEvent::Polled { count, errno });
            &&& next == LoopStep::Dispatch <==> count > 0
            &&& next is PollFailed <==> count < 0 && errno != 4
            &&& next is PollFailed ==> next == (LoopStep::PollFailed { errno })
            &&& next == LoopStep::CheckQuit <==> count == 0 || (count < 0 && errno == 4)
        }),
{
}

/// Once the devices have been read, the program ends exactly if the keys for that were
/// pressed; otherwise it sees whether it has been asked to end.
pub proof fn law_what_follows_reading(quit: bool)
    ensures
        ({
            let next = step_after(LoopStep::Dispatch, LoopEvent::Dispatched { quit });
            &&& quit ==> next == LoopStep::Stop
            &&& !quit ==> next == LoopStep::CheckQuit
        }),
{
}

/// The handler is asked exactly if the program has been asked, and not yet told, to end. The
/// program is told to end exactly if the request still stands then. Either way the turn goes
/// on with its frame.
pub proof fn law_what_follows_a_request_to_end(requested: bool, ordered: bool, still: bool)
    ensures
        ({
            let checked = LoopEvent::QuitChecked { requested, ordered };
            let asked = LoopEvent::HandlerAsked { requested: still };
            &&& step_after(LoopStep::CheckQuit, checked) == LoopStep::AskHandler <==> requested
                && !ordered
            &&& step_after(LoopStep::CheckQuit, checked) == LoopStep::Update <==> !requested
                || ordered
            &&& step_after(LoopStep::AskHandler, asked) == LoopStep::OrderQuit <==> still
            &&& step_after(LoopStep::AskHandler, asked) == LoopStep::Update <==> !still
            &&& step_after(LoopStep::OrderQuit, LoopEvent::Done) == LoopStep::Update
        }),
{
}

/// Requests are taken before input is polled, and a frame is updated, drawn, presented and
/// waited for, in this order, before the next turn.
pub proof fn law_order_of_a_frame()
    ensures
        step_after(LoopStep::TakeRequests, LoopEvent::Done) == LoopStep::Poll,
        step_after(LoopStep::Update, LoopEvent::Done) == LoopStep::Draw,
        step_after(LoopStep::Draw, LoopEvent::Done) == LoopStep::Present,
        step_after(LoopStep::Present, LoopEvent::Done) == LoopStep::Wait,
        step_after(LoopStep::Wait, LoopEvent::Done) == LoopStep::Check,
        POLL_TIMEOUT_MILLIS == 3,
{
}

/// Every answer leads to another step: nothing is asked for twice in a row.
pub proof fn law_every_answer_leads_on(step: LoopStep, event: LoopEvent)
    requires
        answers(step, event),
    ensures
        step_after(step, event) != step,
{
}

/// Every step takes every answer of its kind.
pub proof fn law_answers_to_steps(a: bool, b: bool, keyboards: usize, secs: u64, n: i32, errno: i32)
    ensures
        answers(
            LoopStep::Check,
            LoopEvent::Checked { quit_ordered: a, keyboards, elapsed_secs: secs },
        ),
        answers(LoopStep::TakeRequests, LoopEvent::Done),
        answers(LoopStep::Poll, LoopEvent::Polled { count: n, errno }),
        answers(LoopStep::Dispatch, LoopEvent::Dispatched { quit: a }),
        answers(LoopStep::CheckQuit, LoopEvent::QuitChecked { requested: a, ordered: b }),
        answers(LoopStep::AskHandler, LoopEvent::HandlerAsked { requested: a }),
        answers(LoopStep::OrderQuit, LoopEvent::Done),
        answers(LoopStep::Update, LoopEvent::Done),
        answers(LoopStep::Draw, LoopEvent::Done),
        answers(LoopStep::Present, LoopEvent::Done),
        answers(LoopStep::Wait, LoopEvent::Done),
{
}

} // verus!

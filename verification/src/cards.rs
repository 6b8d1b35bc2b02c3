//! Finding the graphics card to draw on.
//!
//! As the other searches do, this one says what to do next and is told what came of it.

use vstd::prelude::*;

use crate::os::libc_eacces;
use crate::text::append_decimal;

verus! {

/// How many cards are tried.
pub const CARD_COUNT: u32 = 32;

/// What the search for a card wants next.
#[derive(Debug, Copy, Clone, PartialEq, Eq, Structural)]
pub enum CardStep {
    /// Open the card's device file.
    Open,
    /// Ask the open card for its resources.
    GetResources { fd: i32 },
    /// Close the card, which has no resources.
    Close { fd: i32 },
    /// The open card is the one.
    Found { fd: i32 },
    /// The user may not open the card.
    Denied,
    /// There is no card.
    Exhausted,
}

/// What came of a step.
#[derive(Debug, Copy, Clone, PartialEq, Eq, Structural)]
pub enum CardEvent {
    /// Opening gave this file descriptor, or failed with this error number.
    Opened { fd: i32, errno: i32 },
    /// Whether the card has resources.
    Resources { present: bool },
    /// The card was closed.
    Closed,
}

/// The search for the first card with resources.
#[derive(Debug, Copy, Clone, PartialEq, Eq, Structural)]
pub struct CardSearch {
    /// The number of the card that is being tried.
    pub card: u32,
    /// What was asked for last.
    pub step: CardStep,
}

/// The event is an answer to the step.
pub open spec fn answers(step: CardStep, event: CardEvent) -> bool {
    match step {
        CardStep::Open => event is Opened,
        CardStep::GetResources { .. } => event is Resources,
        CardStep::Close { .. } => event is Closed,
        _ => false,
    }
}

/// The search once `card` has been given up.
pub open spec fn after_card(card: u32) -> CardSearch {
    if card + 1 < CARD_COUNT {
        CardSearch { card: (card + 1) as u32, step: CardStep::Open }
    } else {
        CardSearch { card, step: CardStep::Exhausted }
    }
}

/// The search after an event. A card that cannot be opened is passed over, unless the user
/// may not open it; so is one without resources, once it has been closed.
pub open spec fn card_search_after(search: CardSearch, event: CardEvent) -> CardSearch {
    match (search.step, event) {
        (CardStep::Open, CardEvent::Opened { fd, errno }) => if fd >= 0 {
            CardSearch { step: CardStep::GetResources { fd }, ..search }
        } else if errno == crate::os::eacces() {
            CardSearch { step: CardStep::Denied, ..search }
        } else {
            after_card(search.card)
        },
        (CardStep::GetResources { fd }, CardEvent::Resources { present }) => if present {
            CardSearch { step: CardStep::Found { fd }, ..search }
        } else {
            CardSearch { step: CardStep::Close { fd }, ..search }
        },
        (CardStep::Close { fd }, CardEvent::Closed) => after_card(search.card),
        _ => search,
    }
}

/// The path of a card's device file.
pub open spec fn card_path(card: nat) -> Seq<char> {
    "/dev/dri/card"@ + crate::text::decimal(card)
}

impl CardSearch {
    /// A search that starts with the first card.
    pub fn new() -> (search: CardSearch)
        ensures
            search == (CardSearch { card: 0, step: CardStep::Open }),
    {
        CardSearch { card: 0, step: CardStep::Open }
    }

    /// The path of the device file of the card that is being tried.
    pub fn path(&self) -> (path: String)
        ensures
            path@ == card_path(self.card as nat),
            path@ == "/dev/dri/card"@ + crate::text::decimal(self.card as nat),
    {
        let mut path = "/dev/dri/card".to_owned();
        append_decimal(&mut path, self.card);
        path
    }

    /// Goes on to the next card.
    fn give_up(&mut self)
        requires
            old(self).card < CARD_COUNT,
        ensures
            *final(self) == after_card(old(self).card),
    {
        if self.card + 1 < CARD_COUNT {
            self.card = self.card + 1;
            self.step = CardStep::Open;
        } else {
            self.step = CardStep::Exhausted;
        }
    }

    /// Goes on after what came of the last step.
    pub fn find_device_resource(&mut self, event: CardEvent) -> (step: CardStep)
        requires
            old(self).card < CARD_COUNT,
            answers(old(self).step, event),
        ensures
            *final(self) == card_search_after(*old(self), event),
            step == final(self).step,
            final(self).card < CARD_COUNT,
    {
        match (self.step, event) {
            (CardStep::Open, CardEvent::Opened { fd, errno }) => {
                if fd >= 0 {
                    self.step = CardStep::GetResources { fd };
                } else if errno == libc_eacces() {
                    self.step = CardStep::Denied;
                } else {
                    self.give_up();
                }
            },
            (CardStep::GetResources { fd }, CardEvent::Resources { present }) => {
                if present {
                    self.step = CardStep::Found { fd };
                } else {
                    self.step = CardStep::Close { fd };
                }
            },
            (CardStep::Close { .. }, CardEvent::Closed) => {
                self.give_up();
            },
            _ => {},
        }
        self.step
    }
}

/// How a card answers when it is tried.
pub ghost enum CardAnswer {
    /// It cannot be opened.
    Failed { errno: i32 },
    /// It can be opened and may have resources.
    Opened { fd: i32, resources: bool },
}

/// A card that the search passes over.
pub open spec fn is_passed_over(answer: CardAnswer) -> bool {
    match answer {
        CardAnswer::Failed { errno } => errno != crate::os::eacces(),
        CardAnswer::Opened { resources, .. } => !resources,
    }
}

/// What comes of the search's step where the card answers as `answer`.
pub open spec fn event_for(step: CardStep, answer: CardAnswer) -> CardEvent {
    match step {
        CardStep::Open => match answer {
            CardAnswer::Failed { errno } => CardEvent::Opened { fd: (-1int) as i32, errno },
            CardAnswer::Opened { fd, .. } => CardEvent::Opened { fd, errno: 0 },
        },
        CardStep::GetResources { .. } => CardEvent::Resources {
            present: answer matches CardAnswer::Opened { resources, .. } && resources,
        },
        _ => CardEvent::Closed,
    }
}

/// Where a search ends after at most `steps` steps if the cards answer as `answer` says.
pub open spec fn card_search_run(
    search: CardSearch,
    answer: spec_fn(int) -> CardAnswer,
    steps: nat,
) -> CardSearch
    decreases steps,
{
    match search.step {
        CardStep::Found { .. } | CardStep::Denied | CardStep::Exhausted => search,
        _ => if steps == 0 {
            search
        } else {
            card_search_run(
                card_search_after(search, event_for(search.step, answer(search.card as int))),
                answer,
                (steps - 1) as nat,
            )
        },
    }
}

/// The search ends, at the first card that is not passed over: that card is found if it has
/// resources, and the search fails there if it may not be opened. Where every card is passed
/// over, the search comes to its end without one.
pub proof fn law_card_search_ends_at_first(answer: spec_fn(int) -> CardAnswer)
    requires
        forall|card: int| (#[trigger] answer(card)) matches CardAnswer::Opened { fd, .. } ==> fd >= 0,
    ensures
        ({
            let start = CardSearch { card: 0, step: CardStep::Open };
            let end = card_search_run(start, answer, 3 * CARD_COUNT as nat);
            let tried = end.card as int;
            &&& forall|card: int| 0 <= card < tried ==> is_passed_over(#[trigger] answer(card))
            &&& match end.step {
                CardStep::Found { fd } => answer(tried) == (CardAnswer::Opened {
                    fd,
                    resources: true,
                }),
                CardStep::Denied => answer(tried) == (CardAnswer::Failed {
                    errno: crate::os::eacces(),
                }),
                CardStep::Exhausted => forall|card: int|
                    0 <= card < CARD_COUNT ==> is_passed_over(#[trigger] answer(card)),
                _ => false,
            }
        }),
{
    lemma_card_search_run(0, answer, 3 * CARD_COUNT as nat);
}

proof fn lemma_card_search_run(card: u32, answer: spec_fn(int) -> CardAnswer, steps: nat)
    requires
        card < CARD_COUNT,
        steps >= 3 * (CARD_COUNT - card),
        forall|card: int| (#[trigger] answer(card)) matches CardAnswer::Opened { fd, .. } ==> fd >= 0,
        forall|c: int| 0 <= c < card ==> is_passed_over(#[trigger] answer(c)),
    ensures
        ({
            let start = CardSearch { card, step: CardStep::Open };
            let end = card_search_run(start, answer, steps);
            let tried = end.card as int;
            &&& forall|card: int| 0 <= card < tried ==> is_passed_over(#[trigger] answer(card))
            &&& match end.step {
                CardStep::Found { fd } => answer(tried) == (CardAnswer::Opened {
                    fd,
                    resources: true,
                }),
                CardStep::Denied => answer(tried) == (CardAnswer::Failed {
                    errno: crate::os::eacces(),
                }),
                CardStep::Exhausted => forall|card: int|
                    0 <= card < CARD_COUNT ==> is_passed_over(#[trigger] answer(card)),
                _ => false,
            }
        }),
    decreases CARD_COUNT - card,
{
    reveal_with_fuel(card_search_run, 4);
    let reply = answer(card as int);
    if is_passed_over(reply) {
        if card + 1 < CARD_COUNT {
            match reply {
                CardAnswer::Failed { .. } => {
                    lemma_card_search_run((card + 1) as u32, answer, (steps - 1) as nat);
                },
                CardAnswer::Opened { .. } => {
                    lemma_card_search_run((card + 1) as u32, answer, (steps - 3) as nat);
                },
            }
        }
    }
}

/// Different cards have different device files.
pub proof fn law_card_paths_distinct(a: nat, b: nat)
    requires
        card_path(a) == card_path(b),
    ensures
        a == b,
{
    let prefix = "/dev/dri/card"@;
    crate::text::law_decimal_round_trip(a);
    crate::text::law_decimal_round_trip(b);
    assert(card_path(a).skip(prefix.len() as int) =~= crate::text::decimal(a));
    assert(card_path(b).skip(prefix.len() as int) =~= crate::text::decimal(b));
}

/// A card that could be opened is asked for its resources, whatever the error number is. One
/// that could not be opened ends the search if the error number is 13, which says that the
/// user may not; any other error number passes it over.
pub proof fn law_what_follows_opening(card: u32, fd: i32, errno: i32)
    requires
        card < 32,
    ensures
        ({
            let after = card_search_after(
                CardSearch { card, step: CardStep::Open },
                CardEvent::Opened { fd, errno },
            );
            &&& fd >= 0 ==> after.card == card && after.step == (CardStep::GetResources { fd })
            &&& fd < 0 && errno == 13 ==> after.card == card && after.step == CardStep::Denied
            &&& fd < 0 && errno != 13 && card < 31 ==> after.card == card + 1 && after.step
                == CardStep::Open
            &&& fd < 0 && errno != 13 && card == 31 ==> after.step == CardStep::Exhausted
        }),
{
}

/// A card with resources is the one. One without is closed, the very file that was opened,
/// before the next card is tried. All of the 32 cards are tried.
pub proof fn law_what_follows_an_open_card(card: u32, fd: i32)
    requires
        card < 32,
    ensures
        ({
            let asked = CardSearch { card, step: CardStep::GetResources { fd } };
            let closing = CardSearch { card, step: CardStep::Close { fd } };
            let present = card_search_after(asked, CardEvent::Resources { present: true });
            let absent = card_search_after(asked, CardEvent::Resources { present: false });
            let closed = card_search_after(closing, CardEvent::Closed);
            &&& present.card == card && present.step == (CardStep::Found { fd })
            &&& absent == closing
            &&& card < 31 ==> closed.card == card + 1 && closed.step == CardStep::Open
            &&& card == 31 ==> closed.step == CardStep::Exhausted
        }),
{
}

/// Every step takes every answer of its kind.
pub proof fn law_answers_to_steps(fd: i32, errno: i32, file: i32, present: bool)
    ensures
        answers(CardStep::Open, CardEvent::Opened { fd, errno }),
        answers(CardStep::GetResources { fd: file }, CardEvent::Resources { present }),
        answers(CardStep::Close { fd: file }, CardEvent::Closed),
{
}

} // verus!

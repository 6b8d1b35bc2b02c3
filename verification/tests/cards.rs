use linux_drm::cards::{CardEvent, CardSearch, CardStep, CARD_COUNT};

fn search(answers: &[CardAnswer]) -> (CardSearch, Vec<CardStep>) {
    let mut search = CardSearch::new();
    let mut steps = vec![search.step];
    loop {
        let answer = answers.get(search.card as usize).copied().unwrap_or(CardAnswer::Failed(2));
        let event = match search.step {
            CardStep::Open => match answer {
                CardAnswer::Failed(errno) => CardEvent::Opened { fd: -1, errno },
                CardAnswer::Empty(fd) | CardAnswer::Usable(fd) => CardEvent::Opened { fd, errno: 0 },
            },
            CardStep::GetResources { .. } => {
                CardEvent::Resources { present: matches!(answer, CardAnswer::Usable(_)) }
            }
            CardStep::Close { .. } => CardEvent::Closed,
            _ => return (search, steps),
        };
        steps.push(search.find_device_resource(event));
    }
}

#[derive(Clone, Copy)]
enum CardAnswer {
    Failed(i32),
    Empty(i32),
    Usable(i32),
}

#[test]
fn first_card_with_resources_is_found() {
    let (end, steps) = search(&[
        CardAnswer::Failed(libc::ENOENT),
        CardAnswer::Failed(libc::EBUSY),
        CardAnswer::Empty(4),
        CardAnswer::Usable(5),
        CardAnswer::Usable(6),
    ]);
    assert_eq!(end, CardSearch { card: 3, step: CardStep::Found { fd: 5 } });
    assert_eq!(end.path(), "/dev/dri/card3");
    assert_eq!(
        steps,
        vec![
            CardStep::Open,
            CardStep::Open,
            CardStep::Open,
            CardStep::GetResources { fd: 4 },
            CardStep::Close { fd: 4 },
            CardStep::Open,
            CardStep::GetResources { fd: 5 },
            CardStep::Found { fd: 5 },
        ]
    );
}

#[test]
fn a_card_that_may_not_be_opened_ends_the_search() {
    let (end, _) = search(&[
        CardAnswer::Failed(libc::ENOENT),
        CardAnswer::Failed(libc::EACCES),
        CardAnswer::Usable(5),
    ]);
    assert_eq!(end, CardSearch { card: 1, step: CardStep::Denied });
}

#[test]
fn file_descriptor_zero_is_open() {
    let (end, _) = search(&[CardAnswer::Usable(0)]);
    assert_eq!(end, CardSearch { card: 0, step: CardStep::Found { fd: 0 } });
}

#[test]
fn every_card_is_tried() {
    let (end, steps) = search(&[]);
    assert_eq!(end.step, CardStep::Exhausted);
    let opened = steps.iter().filter(|&&step| step == CardStep::Open).count();
    assert_eq!(opened, CARD_COUNT as usize);
    let (end, _) = search(&[CardAnswer::Empty(3); 32]);
    assert_eq!(end.step, CardStep::Exhausted);
}

#[test]
fn the_last_card_can_be_found() {
    let mut answers = [CardAnswer::Empty(3); 32];
    answers[31] = CardAnswer::Usable(9);
    let (end, _) = search(&answers);
    assert_eq!(end, CardSearch { card: 31, step: CardStep::Found { fd: 9 } });
    assert_eq!(end.path(), "/dev/dri/card31");
}

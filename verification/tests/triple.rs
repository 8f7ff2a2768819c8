use linked_submit::operation::{Operation, PushEntry};
use linked_submit::triple::{SubmitLinkedTriple, TripleAction, TripleEvent};

#[derive(Debug, PartialEq, Clone, Copy)]
struct Link<const N: u8>;

impl<const N: u8> Operation for Link<N> {
    type Key = u32;
    type Output = (usize, Link<N>);
}

type Triple = SubmitLinkedTriple<Link<1>, Link<2>, Link<3>>;
type Event<E> = TripleEvent<Link<1>, Link<2>, Link<3>, E>;
type Output = ((usize, Link<1>), (usize, Link<2>), (usize, Link<3>));

/// What the runtime answers when it is asked about a link.
#[derive(Clone, Copy)]
enum Reply {
    Key(u32),
    Done(usize),
}

fn entry<const N: u8>(reply: Reply) -> PushEntry<u32, (usize, Link<N>)> {
    match reply {
        Reply::Key(key) => PushEntry::Pending(key),
        Reply::Done(count) => PushEntry::Ready((count, Link)),
    }
}

/// Runs one whole poll against the answers given, and records the keys that
/// the runtime is asked about, with the number of the link. `None` is a
/// pending poll.
fn poll(
    triple: &mut Triple,
    mut submission: Option<Result<(u32, u32, u32), &'static str>>,
    replies: [Reply; 3],
) -> (Vec<(u8, u32)>, Option<Result<Output, &'static str>>) {
    let mut asked = Vec::new();
    let mut event = TripleEvent::Start;
    loop {
        assert!(triple.accepts(&event));
        event = match triple.poll(event) {
            TripleAction::Submit { .. } => TripleEvent::Submission(submission.take().unwrap()),
            TripleAction::PollFirst { key1 } => {
                asked.push((1, key1));
                TripleEvent::First(entry(replies[0]))
            }
            TripleAction::PollSecond { key2 } => {
                asked.push((2, key2));
                TripleEvent::Second(entry(replies[1]))
            }
            TripleAction::PollThird { key3 } => {
                asked.push((3, key3));
                TripleEvent::Third(entry(replies[2]))
            }
            TripleAction::Ready(output) => return (asked, Some(output)),
            TripleAction::Pending => return (asked, None),
        };
    }
}

fn fresh() -> Triple {
    SubmitLinkedTriple::new(Link, Link, Link)
}

/// A triple in flight, in which the links with a bit in `done` have completed
/// in the poll that submitted it. The keys of the others are 11, 12 and 13.
fn in_flight(done: u8) -> Triple {
    let mut triple = fresh();
    let (asked, output) = poll(&mut triple, Some(Ok((1, 2, 3))), replies(done, 10));
    assert_eq!(asked, vec![(1, 1), (2, 2), (3, 3)]);
    assert_eq!(output, None);
    triple
}

/// Completion of the links with a bit in `done`, and new keys, counted from
/// `base`, for the others.
fn replies(done: u8, base: u32) -> [Reply; 3] {
    let reply = |n: u8| {
        if done & (1 << (n - 1)) != 0 {
            Reply::Done(n as usize * 100)
        } else {
            Reply::Key(base + n as u32)
        }
    };
    [reply(1), reply(2), reply(3)]
}

fn all() -> Output {
    ((100, Link), (200, Link), (300, Link))
}

fn accepts_start(triple: &Triple) -> bool {
    triple.accepts(&Event::<()>::Start)
}

/// The links without a bit in `done`, with their keys counted from `base`.
fn open_links(done: u8, base: u32) -> Vec<(u8, u32)> {
    (1u8..=3)
        .filter(|n| done & (1 << (n - 1)) == 0)
        .map(|n| (n, base + n as u32))
        .collect()
}

fn cancelled(done: u8, base: u32) -> (Option<u32>, Option<u32>, Option<u32>) {
    let key = |n: u8| {
        if done & (1 << (n - 1)) == 0 {
            Some(base + n as u32)
        } else {
            None
        }
    };
    (key(1), key(2), key(3))
}

#[test]
fn triple_submits_its_operations() {
    #[derive(Debug, PartialEq)]
    struct Tagged(u8);
    impl Operation for Tagged {
        type Key = ();
        type Output = ();
    }
    let mut triple = SubmitLinkedTriple::new(Tagged(1), Tagged(2), Tagged(3));
    match triple.poll(TripleEvent::<Tagged, Tagged, Tagged, ()>::Start) {
        TripleAction::Submit { op1, op2, op3 } => {
            assert_eq!((op1, op2, op3), (Tagged(1), Tagged(2), Tagged(3)));
        }
        _ => panic!("the first poll submits"),
    }
}

#[test]
fn triple_resolves_in_first_poll() {
    let mut triple = fresh();
    let (asked, output) = poll(&mut triple, Some(Ok((1, 2, 3))), replies(0b111, 0));
    assert_eq!(asked, vec![(1, 1), (2, 2), (3, 3)]);
    assert_eq!(output, Some(Ok(all())));
    assert!(!accepts_start(&triple));
    assert_eq!(triple.cancel(), (None, None, None));
}

#[test]
fn triple_returns_submission_error() {
    let mut triple = fresh();
    let (asked, output) = poll(&mut triple, Some(Err("unsupported")), replies(0, 0));
    assert_eq!(asked, vec![]);
    assert_eq!(output, Some(Err("unsupported")));
    assert!(!accepts_start(&triple));
    assert_eq!(triple.cancel(), (None, None, None));
}

#[test]
fn triple_goes_from_every_state_to_every_state() {
    for done in 0u8..7 {
        for completing in 0u8..8 {
            let mut triple = in_flight(done);
            let (asked, output) = poll(&mut triple, None, replies(completing, 20));
            assert_eq!(asked, open_links(done, 10));
            if done | completing == 0b111 {
                assert_eq!(output, Some(Ok(all())));
                assert!(!accepts_start(&triple));
                assert_eq!(triple.cancel(), (None, None, None));
            } else {
                assert_eq!(output, None);
                assert!(accepts_start(&triple));
                assert_eq!(triple.cancel(), cancelled(done | completing, 20));
            }
        }
    }
}

#[test]
fn triple_keeps_results_over_polls() {
    let orders = [
        [0b001, 0b010, 0b100],
        [0b001, 0b100, 0b010],
        [0b010, 0b001, 0b100],
        [0b010, 0b100, 0b001],
        [0b100, 0b001, 0b010],
        [0b100, 0b010, 0b001],
    ];
    for order in orders {
        let mut triple = in_flight(0);
        assert_eq!(poll(&mut triple, None, replies(order[0], 20)).1, None);
        assert_eq!(poll(&mut triple, None, replies(order[1], 30)).1, None);
        let (asked, output) = poll(&mut triple, None, replies(order[2], 40));
        assert_eq!(asked, open_links(order[0] | order[1], 30));
        assert_eq!(output, Some(Ok(all())));
    }
}

#[test]
fn triple_unchanged_while_nothing_completes() {
    for done in 0u8..7 {
        let mut triple = in_flight(done);
        for _ in 0..3 {
            let (asked, output) = poll(&mut triple, None, replies(0, 10));
            assert_eq!(asked, open_links(done, 10));
            assert_eq!(output, None);
        }
        assert_eq!(triple.cancel(), cancelled(done, 10));
    }
}

#[test]
fn triple_cancels_what_is_in_flight() {
    let mut idle = fresh();
    assert_eq!(idle.cancel(), (None, None, None));
    assert!(!accepts_start(&idle));

    let expected = [
        (Some(11), Some(12), Some(13)),
        (None, Some(12), Some(13)),
        (Some(11), None, Some(13)),
        (None, None, Some(13)),
        (Some(11), Some(12), None),
        (None, Some(12), None),
        (Some(11), None, None),
    ];
    for done in 0u8..7 {
        let mut triple = in_flight(done);
        assert_eq!(triple.cancel(), expected[done as usize]);
        assert_eq!(triple.cancel(), (None, None, None));
        assert!(!accepts_start(&triple));
    }
}

#[test]
fn triple_cancels_nothing_amid_a_poll() {
    let mut triple = in_flight(0b001);
    let action = triple.poll(Event::<()>::Start);
    assert!(matches!(action, TripleAction::PollSecond { key2: 12 }));
    assert!(!accepts_start(&triple));
    assert_eq!(triple.cancel(), (None, None, None));
}

#[test]
fn triple_accepts_only_what_it_asked_for() {
    let mut triple = fresh();
    let submission = Event::<()>::Submission(Ok((1, 2, 3)));
    let first = Event::<()>::First(PushEntry::Pending(1));
    let second = Event::<()>::Second(PushEntry::Pending(2));
    let third = Event::<()>::Third(PushEntry::Pending(3));

    assert!(accepts_start(&triple));
    assert!(!triple.accepts(&submission));
    assert!(!triple.accepts(&first));
    assert!(!triple.accepts(&second));
    assert!(!triple.accepts(&third));

    triple.poll(Event::<()>::Start);
    assert!(!accepts_start(&triple));
    assert!(triple.accepts(&submission));

    triple.poll(submission);
    assert!(triple.accepts(&first));
    assert!(!triple.accepts(&second));

    triple.poll(first);
    assert!(triple.accepts(&second));
    assert!(!triple.accepts(&third));

    triple.poll(second);
    assert!(triple.accepts(&third));
    assert!(!accepts_start(&triple));

    triple.poll(third);
    assert!(accepts_start(&triple));
}

use linked_submit::operation::{Operation, PushEntry};
use linked_submit::pair::{PairAction, PairEvent, SubmitLinkedPair};

#[derive(Debug, PartialEq, Clone, Copy)]
struct Read(u8);

#[derive(Debug, PartialEq, Clone, Copy)]
struct Write(u8);

impl Operation for Read {
    type Key = u32;
    type Output = (Result<usize, i32>, Read);
}

impl Operation for Write {
    type Key = u64;
    type Output = (Result<usize, i32>, Write);
}

type ReadEntry = PushEntry<u32, (Result<usize, i32>, Read)>;
type WriteEntry = PushEntry<u64, (Result<usize, i32>, Write)>;
type Output = ((Result<usize, i32>, Read), (Result<usize, i32>, Write));

const READ: Read = Read(1);
const WRITE: Write = Write(2);

#[derive(Debug, PartialEq)]
enum Call {
    Submit(Read, Write),
    Read(u32),
    Write(u64),
}

/// Runs one whole poll against the answers given, and records the calls that
/// it asks for. `None` is a pending poll.
fn poll(
    pair: &mut SubmitLinkedPair<Read, Write>,
    mut submission: Option<Result<(u32, u64), &'static str>>,
    mut read: Option<ReadEntry>,
    mut write: Option<WriteEntry>,
) -> (Vec<Call>, Option<Result<Output, &'static str>>) {
    let mut calls = Vec::new();
    let mut event = PairEvent::Start;
    loop {
        assert!(pair.accepts(&event));
        event = match pair.poll(event) {
            PairAction::Submit { op1, op2 } => {
                calls.push(Call::Submit(op1, op2));
                PairEvent::Submission(submission.take().unwrap())
            }
            PairAction::PollFirst { key1 } => {
                calls.push(Call::Read(key1));
                PairEvent::First(read.take().unwrap())
            }
            PairAction::PollSecond { key2 } => {
                calls.push(Call::Write(key2));
                PairEvent::Second(write.take().unwrap())
            }
            PairAction::Ready(output) => return (calls, Some(output)),
            PairAction::Pending => return (calls, None),
        };
    }
}

fn read_done() -> Option<ReadEntry> {
    Some(PushEntry::Ready((Ok(10), READ)))
}

fn write_done() -> Option<WriteEntry> {
    Some(PushEntry::Ready((Ok(20), WRITE)))
}

fn both() -> Output {
    ((Ok(10), READ), (Ok(20), WRITE))
}

fn accepts_start(pair: &SubmitLinkedPair<Read, Write>) -> bool {
    pair.accepts(&PairEvent::<Read, Write, ()>::Start)
}

/// A pair whose chain has been submitted and is wholly in flight, under the
/// keys 3 and 4.
fn submitted() -> SubmitLinkedPair<Read, Write> {
    let mut pair = SubmitLinkedPair::new(READ, WRITE);
    let (_, output) = poll(
        &mut pair,
        Some(Ok((1, 2))),
        Some(PushEntry::Pending(3)),
        Some(PushEntry::Pending(4)),
    );
    assert_eq!(output, None);
    pair
}

#[test]
fn pair_resolves_in_first_poll() {
    let mut pair = SubmitLinkedPair::new(READ, WRITE);
    let (calls, output) = poll(&mut pair, Some(Ok((1, 2))), read_done(), write_done());
    assert_eq!(
        calls,
        vec![Call::Submit(READ, WRITE), Call::Read(1), Call::Write(2)]
    );
    assert_eq!(output, Some(Ok(both())));
    assert!(!accepts_start(&pair));
    assert_eq!(pair.cancel(), (None, None));
}

#[test]
fn pair_returns_submission_error() {
    let mut pair = SubmitLinkedPair::new(READ, WRITE);
    let (calls, output) = poll(&mut pair, Some(Err("unsupported")), None, None);
    assert_eq!(calls, vec![Call::Submit(READ, WRITE)]);
    assert_eq!(output, Some(Err("unsupported")));
    assert!(!accepts_start(&pair));
    assert_eq!(pair.cancel(), (None, None));
}

#[test]
fn pair_polls_by_latest_keys() {
    let mut pair = submitted();
    let (calls, output) = poll(
        &mut pair,
        None,
        Some(PushEntry::Pending(5)),
        Some(PushEntry::Pending(6)),
    );
    assert_eq!(calls, vec![Call::Read(3), Call::Write(4)]);
    assert_eq!(output, None);
    assert_eq!(pair.cancel(), (Some(5), Some(6)));
}

#[test]
fn pair_first_completes_first() {
    let mut pair = submitted();
    let (calls, output) = poll(&mut pair, None, read_done(), Some(PushEntry::Pending(6)));
    assert_eq!(calls, vec![Call::Read(3), Call::Write(4)]);
    assert_eq!(output, None);
    let (calls, output) = poll(&mut pair, None, None, Some(PushEntry::Pending(7)));
    assert_eq!(calls, vec![Call::Write(6)]);
    assert_eq!(output, None);
    let (calls, output) = poll(&mut pair, None, None, write_done());
    assert_eq!(calls, vec![Call::Write(7)]);
    assert_eq!(output, Some(Ok(both())));
    assert!(!accepts_start(&pair));
}

#[test]
fn pair_second_completes_first() {
    let mut pair = submitted();
    let (_, output) = poll(&mut pair, None, Some(PushEntry::Pending(5)), write_done());
    assert_eq!(output, None);
    let (calls, output) = poll(&mut pair, None, Some(PushEntry::Pending(6)), None);
    assert_eq!(calls, vec![Call::Read(5)]);
    assert_eq!(output, None);
    let (calls, output) = poll(&mut pair, None, read_done(), None);
    assert_eq!(calls, vec![Call::Read(6)]);
    assert_eq!(output, Some(Ok(both())));
    assert!(!accepts_start(&pair));
}

#[test]
fn pair_resolves_with_failed_operations() {
    // The first operation fails and the kernel cancels the second: the chain
    // itself resolves, with both results.
    let mut pair = submitted();
    let (_, output) = poll(
        &mut pair,
        None,
        Some(PushEntry::Ready((Err(5), READ))),
        Some(PushEntry::Ready((Err(125), WRITE))),
    );
    assert_eq!(output, Some(Ok(((Err(5), READ), (Err(125), WRITE)))));
}

#[test]
fn pair_cancels_what_is_in_flight() {
    let mut idle = SubmitLinkedPair::new(READ, WRITE);
    assert_eq!(idle.cancel(), (None, None));
    assert!(!accepts_start(&idle));

    let mut pair = submitted();
    assert_eq!(pair.cancel(), (Some(3), Some(4)));
    assert_eq!(pair.cancel(), (None, None));
    assert!(!accepts_start(&pair));

    let mut first_done = submitted();
    poll(&mut first_done, None, read_done(), Some(PushEntry::Pending(6)));
    assert_eq!(first_done.cancel(), (None, Some(6)));

    let mut second_done = submitted();
    poll(&mut second_done, None, Some(PushEntry::Pending(5)), write_done());
    assert_eq!(second_done.cancel(), (Some(5), None));
}

#[test]
fn pair_cancels_nothing_amid_a_poll() {
    let mut pair = submitted();
    let action = pair.poll(PairEvent::<Read, Write, ()>::Start);
    assert!(matches!(action, PairAction::PollFirst { key1: 3 }));
    assert!(!accepts_start(&pair));
    assert_eq!(pair.cancel(), (None, None));
}

#[test]
fn pair_accepts_only_what_it_asked_for() {
    let mut pair = SubmitLinkedPair::new(READ, WRITE);
    let start = PairEvent::<Read, Write, ()>::Start;
    let submission = PairEvent::<Read, Write, ()>::Submission(Ok((1, 2)));
    let first = PairEvent::<Read, Write, ()>::First(PushEntry::Pending(1));
    let second = PairEvent::<Read, Write, ()>::Second(PushEntry::Pending(2));

    assert!(pair.accepts(&start));
    assert!(!pair.accepts(&submission));
    assert!(!pair.accepts(&first));
    assert!(!pair.accepts(&second));

    pair.poll(start);
    assert!(!pair.accepts(&PairEvent::<Read, Write, ()>::Start));
    assert!(pair.accepts(&submission));
    assert!(!pair.accepts(&first));

    pair.poll(submission);
    assert!(pair.accepts(&first));
    assert!(!pair.accepts(&second));

    pair.poll(first);
    assert!(pair.accepts(&second));
    assert!(!pair.accepts(&PairEvent::<Read, Write, ()>::First(PushEntry::Pending(1))));

    pair.poll(second);
    assert!(accepts_start(&pair));
}

#[test]
fn pair_unchanged_while_nothing_completes() {
    let mut pair = submitted();
    for _ in 0..3 {
        let (calls, output) = poll(
            &mut pair,
            None,
            Some(PushEntry::Pending(3)),
            Some(PushEntry::Pending(4)),
        );
        assert_eq!(calls, vec![Call::Read(3), Call::Write(4)]);
        assert_eq!(output, None);
    }
    assert_eq!(pair.cancel(), (Some(3), Some(4)));
}

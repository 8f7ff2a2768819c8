//! What holds of a linked pair over its whole life.

use crate::operation::{Operation, PushEntry};
use crate::pair::{PairAction, PairEvent, PairPhase};
use vstd::prelude::*;

verus! {

/// The phase after `events`, from `phase` on.
pub open spec fn pair_run<T1: Operation, T2: Operation, E>(
    phase: PairPhase<T1, T2>,
    events: Seq<PairEvent<T1, T2, E>>,
) -> PairPhase<T1, T2>
    decreases events.len(),
{
    if events.len() == 0 {
        phase
    } else {
        pair_run(phase, events.drop_last()).next(events.last()).0
    }
}

/// Whether each of `events` is accepted when it comes, from `phase` on.
pub open spec fn pair_admits<T1: Operation, T2: Operation, E>(
    phase: PairPhase<T1, T2>,
    events: Seq<PairEvent<T1, T2, E>>,
) -> bool
    decreases events.len(),
{
    events.len() == 0 || {
        &&& pair_admits(phase, events.drop_last())
        &&& pair_run(phase, events.drop_last()).accepts(events.last())
    }
}

/// What is asked for after the last of `events`, from `phase` on.
pub open spec fn pair_answer<T1: Operation, T2: Operation, E>(
    phase: PairPhase<T1, T2>,
    events: Seq<PairEvent<T1, T2, E>>,
) -> PairAction<T1, T2, E>
    recommends
        events.len() > 0,
{
    pair_run(phase, events.drop_last()).next(events.last()).1
}

/// The runtime's latest word on the first operation.
pub open spec fn pair_first_entry<T1: Operation, T2: Operation, E>(
    events: Seq<PairEvent<T1, T2, E>>,
) -> Option<PushEntry<T1::Key, T1::Output>>
    decreases events.len(),
{
    if events.len() == 0 {
        None
    } else {
        match events.last() {
            PairEvent::Submission(Ok((key1, _))) => Some(PushEntry::Pending(key1)),
            PairEvent::First(entry) => Some(entry),
            _ => pair_first_entry(events.drop_last()),
        }
    }
}

/// The runtime's latest word on the second operation.
pub open spec fn pair_second_entry<T1: Operation, T2: Operation, E>(
    events: Seq<PairEvent<T1, T2, E>>,
) -> Option<PushEntry<T2::Key, T2::Output>>
    decreases events.len(),
{
    if events.len() == 0 {
        None
    } else {
        match events.last() {
            PairEvent::Submission(Ok((_, key2))) => Some(PushEntry::Pending(key2)),
            PairEvent::Second(entry) => Some(entry),
            _ => pair_second_entry(events.drop_last()),
        }
    }
}

/// At every moment of its life a pair holds the runtime's latest word on each
/// of its operations: the operations themselves before they are submitted, the
/// latest key of one in flight, the result of one that has completed. The key
/// that it does not hold is the one that the runtime is being asked about. It
/// is finished only when both operations have completed or the submission has
/// failed.
pub proof fn pair_holds_latest_word<T1: Operation, T2: Operation, E>(
    op1: T1,
    op2: T2,
    events: Seq<PairEvent<T1, T2, E>>,
)
    requires
        pair_admits(PairPhase::Idle { op1, op2 }, events),
    ensures
        match pair_run(PairPhase::Idle { op1, op2 }, events) {
            PairPhase::Idle { op1: held1, op2: held2 } => {
                &&& events.len() == 0
                &&& held1 == op1
                &&& held2 == op2
            },
            PairPhase::Submitting => {
                &&& events.len() == 1
                &&& events[0] is Start
            },
            PairPhase::InFlight { first, second } => {
                &&& pair_first_entry(events) == Some(first)
                &&& pair_second_entry(events) == Some(second)
                &&& first is Pending || second is Pending
            },
            PairPhase::PollingFirst { second } => {
                &&& PushEntry::latest_key(pair_first_entry(events)) is Some
                &&& pair_second_entry(events) == Some(second)
            },
            PairPhase::PollingSecond { first } => {
                &&& pair_first_entry(events) == Some(first)
                &&& PushEntry::latest_key(pair_second_entry(events)) is Some
            },
            PairPhase::Finished => {
                ||| {
                    &&& pair_first_entry(events) matches Some(PushEntry::Ready(_))
                    &&& pair_second_entry(events) matches Some(PushEntry::Ready(_))
                }
                ||| {
                    &&& events.len() == 2
                    &&& events[0] is Start
                    &&& events[1] matches PairEvent::Submission(Err(_))
                }
            },
        },
    decreases events.len(),
{
    if events.len() > 0 {
        pair_holds_latest_word(op1, op2, events.drop_last());
        reveal_with_fuel(pair_first_entry, 3);
        reveal_with_fuel(pair_second_entry, 3);
    }
}

/// A pair resolves exactly when both of its operations have completed, with
/// the result of each in the order of the operations; and it fails exactly
/// when the submission fails, with the error of the submission.
pub proof fn pair_resolves_when_both_complete<T1: Operation, T2: Operation, E>(
    op1: T1,
    op2: T2,
    events: Seq<PairEvent<T1, T2, E>>,
)
    requires
        pair_admits(PairPhase::Idle { op1, op2 }, events),
        events.len() > 0,
    ensures
        match (pair_first_entry(events), pair_second_entry(events)) {
            (Some(PushEntry::Ready(result1)), Some(PushEntry::Ready(result2))) => pair_answer(
                PairPhase::Idle { op1, op2 },
                events,
            ) == PairAction::<T1, T2, E>::Ready(Ok((result1, result2))),
            _ => !(pair_answer(PairPhase::Idle { op1, op2 }, events) matches PairAction::Ready(
                Ok(_),
            )),
        },
        match events.last() {
            PairEvent::Submission(Err(error)) => pair_answer(PairPhase::Idle { op1, op2 }, events)
                == PairAction::<T1, T2, E>::Ready(Err(error)),
            _ => !(pair_answer(PairPhase::Idle { op1, op2 }, events) matches PairAction::Ready(
                Err(_),
            )),
        },
{
    pair_holds_latest_word(op1, op2, events.drop_last());
    reveal_with_fuel(pair_first_entry, 3);
    reveal_with_fuel(pair_second_entry, 3);
}

/// A pair that has returned its output accepts nothing more; one that has
/// returned pending accepts the next poll and nothing else.
pub proof fn pair_is_over_once_ready<T1: Operation, T2: Operation, E>(
    op1: T1,
    op2: T2,
    events: Seq<PairEvent<T1, T2, E>>,
    event: PairEvent<T1, T2, E>,
)
    requires
        pair_admits(PairPhase::Idle { op1, op2 }, events),
        events.len() > 0,
    ensures
        pair_answer(PairPhase::Idle { op1, op2 }, events) is Ready ==> !pair_admits(
            PairPhase::Idle { op1, op2 },
            events.push(event),
        ),
        pair_answer(PairPhase::Idle { op1, op2 }, events) is Pending ==> (pair_admits(
            PairPhase::Idle { op1, op2 },
            events.push(event),
        ) <==> event is Start),
{
    assert(events.push(event).drop_last() == events);
}

/// Every start of a history of events is a history of its own.
proof fn pair_admits_prefix<T1: Operation, T2: Operation, E>(
    phase: PairPhase<T1, T2>,
    events: Seq<PairEvent<T1, T2, E>>,
    n: int,
)
    requires
        pair_admits(phase, events),
        0 <= n <= events.len(),
    ensures
        pair_admits(phase, events.take(n)),
    decreases events.len(),
{
    if n < events.len() {
        pair_admits_prefix(phase, events.drop_last(), n);
        assert(events.drop_last().take(n) == events.take(n));
    } else {
        assert(events.take(n) == events);
    }
}

/// A pair submits its operations once, both of them and in their order, at the
/// start of its first poll.
pub proof fn pair_submits_once<T1: Operation, T2: Operation, E>(
    op1: T1,
    op2: T2,
    events: Seq<PairEvent<T1, T2, E>>,
    i: int,
)
    requires
        pair_admits(PairPhase::Idle { op1, op2 }, events),
        0 <= i < events.len(),
    ensures
        pair_answer(PairPhase::Idle { op1, op2 }, events.take(i + 1)) is Submit <==> i == 0,
        i == 0 ==> pair_answer(PairPhase::Idle { op1, op2 }, events.take(i + 1))
            == (PairAction::<T1, T2, E>::Submit { op1, op2 }),
        events[i] is Submission <==> i == 1,
{
    let idle = PairPhase::Idle { op1, op2 };
    let until = events.take(i + 1);
    pair_admits_prefix(idle, events, i + 1);
    pair_holds_latest_word(op1, op2, until.drop_last());
    reveal_with_fuel(pair_run, 3);
    reveal_with_fuel(pair_admits, 3);
}

/// A pair asks about an operation by the key that the runtime last gave for
/// it.
pub proof fn pair_asks_by_latest_key<T1: Operation, T2: Operation, E>(
    op1: T1,
    op2: T2,
    events: Seq<PairEvent<T1, T2, E>>,
)
    requires
        pair_admits(PairPhase::Idle { op1, op2 }, events),
        events.len() > 0,
    ensures
        pair_answer(PairPhase::Idle { op1, op2 }, events) matches PairAction::PollFirst { key1 }
            ==> pair_first_entry(events) == Some(PushEntry::<_, T1::Output>::Pending(key1)),
        pair_answer(PairPhase::Idle { op1, op2 }, events) matches PairAction::PollSecond { key2 }
            ==> pair_second_entry(events) == Some(PushEntry::<_, T2::Output>::Pending(key2)),
{
    pair_holds_latest_word(op1, op2, events.drop_last());
}

/// Once the first operation has completed its result is kept, and the runtime
/// is not asked about it again.
pub proof fn pair_keeps_first_result<T1: Operation, T2: Operation, E>(
    op1: T1,
    op2: T2,
    events: Seq<PairEvent<T1, T2, E>>,
    i: int,
    result1: T1::Output,
)
    requires
        pair_admits(PairPhase::Idle { op1, op2 }, events),
        0 <= i < events.len(),
        events[i] == PairEvent::<T1, T2, E>::First(PushEntry::Ready(result1)),
    ensures
        pair_first_entry(events) == Some(PushEntry::<T1::Key, _>::Ready(result1)),
        !(pair_answer(PairPhase::Idle { op1, op2 }, events) is PollFirst),
        i < events.len() - 1 ==> !(events.last() is First),
    decreases events.len(),
{
    let before = events.drop_last();
    if i < before.len() {
        pair_keeps_first_result(op1, op2, before, i, result1);
        pair_submits_once(op1, op2, events, events.len() - 1);
        pair_submits_once(op1, op2, events, i);
    }
    pair_holds_latest_word(op1, op2, before);
    pair_asks_by_latest_key(op1, op2, events);
}

/// Once the second operation has completed its result is kept, and the runtime
/// is not asked about it again.
pub proof fn pair_keeps_second_result<T1: Operation, T2: Operation, E>(
    op1: T1,
    op2: T2,
    events: Seq<PairEvent<T1, T2, E>>,
    i: int,
    result2: T2::Output,
)
    requires
        pair_admits(PairPhase::Idle { op1, op2 }, events),
        0 <= i < events.len(),
        events[i] == PairEvent::<T1, T2, E>::Second(PushEntry::Ready(result2)),
    ensures
        pair_second_entry(events) == Some(PushEntry::<T2::Key, _>::Ready(result2)),
        !(pair_answer(PairPhase::Idle { op1, op2 }, events) is PollSecond),
        i < events.len() - 1 ==> !(events.last() is Second),
    decreases events.len(),
{
    let before = events.drop_last();
    if i < before.len() {
        pair_keeps_second_result(op1, op2, before, i, result2);
        pair_submits_once(op1, op2, events, events.len() - 1);
        pair_submits_once(op1, op2, events, i);
    }
    pair_holds_latest_word(op1, op2, before);
    pair_asks_by_latest_key(op1, op2, events);
}

/// Giving a pair up while no poll is under way cancels exactly the operations
/// in flight: the latest key of each that has been submitted and has not
/// completed.
pub proof fn pair_cancels_what_is_in_flight<T1: Operation, T2: Operation, E>(
    op1: T1,
    op2: T2,
    events: Seq<PairEvent<T1, T2, E>>,
)
    requires
        pair_admits(PairPhase::Idle { op1, op2 }, events),
        events.len() == 0 || pair_answer(PairPhase::Idle { op1, op2 }, events) is Ready
            || pair_answer(PairPhase::Idle { op1, op2 }, events) is Pending,
    ensures
        pair_run(PairPhase::Idle { op1, op2 }, events).outstanding() == (
            PushEntry::latest_key(pair_first_entry(events)),
            PushEntry::latest_key(pair_second_entry(events)),
        ),
        match pair_first_entry(events) {
            Some(PushEntry::Pending(key1)) => pair_run(
                PairPhase::Idle { op1, op2 },
                events,
            ).outstanding().0 == Some(key1),
            _ => pair_run(PairPhase::Idle { op1, op2 }, events).outstanding().0 is None,
        },
        match pair_second_entry(events) {
            Some(PushEntry::Pending(key2)) => pair_run(
                PairPhase::Idle { op1, op2 },
                events,
            ).outstanding().1 == Some(key2),
            _ => pair_run(PairPhase::Idle { op1, op2 }, events).outstanding().1 is None,
        },
{
    pair_holds_latest_word(op1, op2, events);
    reveal_with_fuel(pair_first_entry, 3);
    reveal_with_fuel(pair_second_entry, 3);
}

/// The events of a whole poll of a chain in flight, in which the runtime
/// answers with `reply1` and `reply2`.
pub open spec fn pair_whole_poll<T1: Operation, T2: Operation, E>(
    first: PushEntry<T1::Key, T1::Output>,
    second: PushEntry<T2::Key, T2::Output>,
    reply1: PushEntry<T1::Key, T1::Output>,
    reply2: PushEntry<T2::Key, T2::Output>,
) -> Seq<PairEvent<T1, T2, E>> {
    let start = seq![PairEvent::<T1, T2, E>::Start];
    let asked1 = if first is Pending {
        start.push(PairEvent::First(reply1))
    } else {
        start
    };
    if second is Pending {
        asked1.push(PairEvent::Second(reply2))
    } else {
        asked1
    }
}

/// A poll of a chain in flight asks once about each operation in flight, the
/// first before the second, and takes up every answer before it returns.
pub proof fn pair_poll_asks_each_in_flight<T1: Operation, T2: Operation, E>(
    first: PushEntry<T1::Key, T1::Output>,
    second: PushEntry<T2::Key, T2::Output>,
    reply1: PushEntry<T1::Key, T1::Output>,
    reply2: PushEntry<T2::Key, T2::Output>,
)
    requires
        first is Pending || second is Pending,
    ensures
        ({
            let resting = PairPhase::<T1, T2>::InFlight { first, second };
            let events = pair_whole_poll::<T1, T2, E>(first, second, reply1, reply2);
            &&& pair_admits(resting, events)
            &&& (pair_run(resting, events), pair_answer(resting, events))
                == PairPhase::<T1, T2>::settle::<E>(first.advance(reply1), second.advance(reply2))
            &&& match (
                if first is Pending { reply1 } else { first },
                if second is Pending { reply2 } else { second },
            ) {
                (PushEntry::Ready(result1), PushEntry::Ready(result2)) => {
                    &&& pair_run(resting, events) is Finished
                    &&& pair_answer(resting, events) == PairAction::<T1, T2, E>::Ready(
                        Ok((result1, result2)),
                    )
                },
                (known1, known2) => {
                    &&& pair_run(resting, events) == (PairPhase::<T1, T2>::InFlight {
                        first: known1,
                        second: known2,
                    })
                    &&& pair_answer(resting, events) is Pending
                },
            }
        }),
{
    let start = seq![PairEvent::<T1, T2, E>::Start];
    let asked1 = if first is Pending {
        start.push(PairEvent::First(reply1))
    } else {
        start
    };
    assert(start.push(PairEvent::First(reply1)).drop_last() == start);
    assert(asked1.push(PairEvent::Second(reply2)).drop_last() == asked1);
    reveal_with_fuel(pair_run, 4);
    reveal_with_fuel(pair_admits, 4);
}

/// No poll of a chain in flight goes another way: whatever the runtime
/// answers, the events from the start of the poll to its return are those of
/// [`pair_whole_poll`].
pub proof fn pair_every_poll_is_whole<T1: Operation, T2: Operation, E>(
    first: PushEntry<T1::Key, T1::Output>,
    second: PushEntry<T2::Key, T2::Output>,
    events: Seq<PairEvent<T1, T2, E>>,
)
    requires
        first is Pending || second is Pending,
        pair_admits(PairPhase::InFlight { first, second }, events),
        events.len() > 0,
        forall|i: int| 0 < i < events.len() ==> !(events[i] is Start),
        pair_answer(PairPhase::InFlight { first, second }, events) is Ready || pair_answer(
            PairPhase::InFlight { first, second },
            events,
        ) is Pending,
    ensures
        exists|
            reply1: PushEntry<T1::Key, T1::Output>,
            reply2: PushEntry<T2::Key, T2::Output>,
        | events == #[trigger] pair_whole_poll::<T1, T2, E>(first, second, reply1, reply2),
{
    let resting = PairPhase::<T1, T2>::InFlight { first, second };
    let asked = pair_calls_left(resting) as int;
    reveal_with_fuel(pair_run, 5);
    reveal_with_fuel(pair_admits, 5);
    if events.len() > asked + 1 {
        pair_admits_prefix(resting, events, asked + 2);
        assert(!(events.take(asked + 2).last() is Start));
    }
    let reply1 = if first is Pending {
        events[1]->First_0
    } else {
        first
    };
    let reply2 = if second is Pending {
        events[asked]->Second_0
    } else {
        second
    };
    assert(events =~= pair_whole_poll::<T1, T2, E>(first, second, reply1, reply2));
}

/// The first poll of a pair submits the chain and, if that succeeds, asks
/// about both operations at once.
pub proof fn pair_first_poll<T1: Operation, T2: Operation, E>(
    op1: T1,
    op2: T2,
    key1: T1::Key,
    key2: T2::Key,
    reply1: PushEntry<T1::Key, T1::Output>,
    reply2: PushEntry<T2::Key, T2::Output>,
)
    ensures
        ({
            let idle = PairPhase::Idle { op1, op2 };
            let events = seq![
                PairEvent::<T1, T2, E>::Start,
                PairEvent::Submission(Ok((key1, key2))),
                PairEvent::First(reply1),
                PairEvent::Second(reply2),
            ];
            &&& pair_admits(idle, events)
            &&& (pair_run(idle, events), pair_answer(idle, events)) == PairPhase::<
                T1,
                T2,
            >::settle::<E>(reply1, reply2)
            &&& match (reply1, reply2) {
                (PushEntry::Ready(result1), PushEntry::Ready(result2)) => {
                    &&& pair_run(idle, events) is Finished
                    &&& pair_answer(idle, events) == PairAction::<T1, T2, E>::Ready(
                        Ok((result1, result2)),
                    )
                },
                _ => {
                    &&& pair_run(idle, events) == (PairPhase::<T1, T2>::InFlight {
                        first: reply1,
                        second: reply2,
                    })
                    &&& pair_answer(idle, events) is Pending
                },
            }
            &&& pair_answer(idle, events.take(1)) == (PairAction::<T1, T2, E>::Submit { op1, op2 })
            &&& pair_answer(idle, events.take(2)) == (PairAction::<T1, T2, E>::PollFirst { key1 })
            &&& pair_answer(idle, events.take(3)) == (PairAction::<T1, T2, E>::PollSecond { key2 })
        }),
{
    reveal_with_fuel(pair_run, 5);
    reveal_with_fuel(pair_admits, 5);
}

/// A poll in which the runtime reports no completion and gives back every key
/// leaves the pair as it was.
pub proof fn pair_poll_without_completion<T1: Operation, T2: Operation, E>(
    first: PushEntry<T1::Key, T1::Output>,
    second: PushEntry<T2::Key, T2::Output>,
)
    requires
        first is Pending || second is Pending,
    ensures
        ({
            let resting = PairPhase::<T1, T2>::InFlight { first, second };
            let events = pair_whole_poll::<T1, T2, E>(first, second, first, second);
            &&& pair_run(resting, events) == resting
            &&& pair_answer(resting, events) is Pending
        }),
{
    pair_poll_asks_each_in_flight::<T1, T2, E>(first, second, first, second);
}

/// How many calls into the runtime a poll still asks for, if no submission
/// fails.
pub open spec fn pair_calls_left<T1: Operation, T2: Operation>(phase: PairPhase<T1, T2>) -> nat {
    match phase {
        PairPhase::Idle { .. } => 3,
        PairPhase::Submitting => 2,
        PairPhase::InFlight { first, second } => first.calls() + second.calls(),
        PairPhase::PollingFirst { second } => second.calls(),
        PairPhase::PollingSecond { .. } => 0,
        PairPhase::Finished => 0,
    }
}

/// A poll ends: each call that it asks for is one fewer left, at most three
/// from its start, and it returns exactly when none is left or the submission
/// has failed.
pub proof fn pair_poll_ends<T1: Operation, T2: Operation, E>(
    phase: PairPhase<T1, T2>,
    event: PairEvent<T1, T2, E>,
)
    requires
        phase.accepts(event),
    ensures
        pair_calls_left(phase) <= 3,
        phase.next(event).1 is Ready || phase.next(event).1 is Pending <==> pair_calls_left(phase)
            == 0 || event matches PairEvent::Submission(Err(_)),
        !(phase.next(event).1 is Ready || phase.next(event).1 is Pending) ==> pair_calls_left(
            phase.next(event).0,
        ) + 1 == pair_calls_left(phase),
{
}

/// Every outcome of a call can be reported, and nothing else: a pair that has
/// asked for a call takes the outcome of that call next, be it a success or a
/// failure, an operation in flight or a completed one. Before its first poll,
/// and after each poll that returned pending, it takes the start of a poll;
/// after its output it takes nothing.
pub proof fn pair_accepts_every_outcome<T1: Operation, T2: Operation, E>(
    op1: T1,
    op2: T2,
    events: Seq<PairEvent<T1, T2, E>>,
    event: PairEvent<T1, T2, E>,
)
    requires
        pair_admits(PairPhase::Idle { op1, op2 }, events),
    ensures
        events.len() == 0 ==> (pair_admits(PairPhase::Idle { op1, op2 }, events.push(event))
            <==> event is Start),
        events.len() > 0 ==> (pair_admits(PairPhase::Idle { op1, op2 }, events.push(event)) <==> (
        match pair_answer(PairPhase::Idle { op1, op2 }, events) {
            PairAction::Submit { .. } => event is Submission,
            PairAction::PollFirst { .. } => event is First,
            PairAction::PollSecond { .. } => event is Second,
            PairAction::Pending => event is Start,
            PairAction::Ready(_) => false,
        })),
{
    assert(events.push(event).drop_last() == events);
    if events.len() > 0 {
        pair_holds_latest_word(op1, op2, events.drop_last());
    }
}

/// A chain that cannot be submitted makes the future resolve at once, in its
/// first poll, with the error of the submission, whatever that error is; the
/// future is over then and leaves nothing to cancel.
pub proof fn pair_fails_with_submission_error<T1: Operation, T2: Operation, E>(
    op1: T1,
    op2: T2,
    error: E,
)
    ensures
        ({
            let idle = PairPhase::Idle { op1, op2 };
            let events = seq![PairEvent::<T1, T2, E>::Start, PairEvent::Submission(Err(error))];
            &&& pair_admits(idle, events)
            &&& pair_answer(idle, events) == PairAction::<T1, T2, E>::Ready(Err(error))
            &&& pair_run(idle, events) is Finished
            &&& pair_run(idle, events).outstanding() == (None::<T1::Key>, None::<T2::Key>)
            &&& forall|event: PairEvent<T1, T2, E>|
                !#[trigger] pair_admits(idle, events.push(event))
        }),
{
    let idle = PairPhase::Idle { op1, op2 };
    let start = seq![PairEvent::<T1, T2, E>::Start];
    let events = seq![PairEvent::<T1, T2, E>::Start, PairEvent::Submission(Err(error))];
    assert(start.drop_last() == Seq::<PairEvent<T1, T2, E>>::empty());
    assert(events.drop_last() == start);
    reveal_with_fuel(pair_run, 3);
    reveal_with_fuel(pair_admits, 3);
    assert forall|event: PairEvent<T1, T2, E>|
        !#[trigger] pair_admits(idle, events.push(event)) by {
        pair_accepts_every_outcome(op1, op2, events, event);
    }
}

/// A poll of a chain in flight asks about the operations in their order, each
/// by the key that is held for it, and passes over those that have completed.
pub proof fn pair_asks_in_order<T1: Operation, T2: Operation, E>(
    first: PushEntry<T1::Key, T1::Output>,
    second: PushEntry<T2::Key, T2::Output>,
    reply1: PushEntry<T1::Key, T1::Output>,
)
    ensures
        ({
            let resting = PairPhase::<T1, T2>::InFlight { first, second };
            let start = seq![PairEvent::<T1, T2, E>::Start];
            let asked1 = start.push(PairEvent::First(reply1));
            match (first, second) {
                (PushEntry::Pending(key1), PushEntry::Pending(key2)) => {
                    &&& pair_answer(resting, start) == (PairAction::<T1, T2, E>::PollFirst { key1 })
                    &&& pair_answer(resting, asked1) == (PairAction::<T1, T2, E>::PollSecond {
                        key2,
                    })
                },
                (PushEntry::Pending(key1), PushEntry::Ready(_)) => {
                    &&& pair_answer(resting, start) == (PairAction::<T1, T2, E>::PollFirst { key1 })
                    &&& !(pair_answer(resting, asked1) is PollSecond)
                },
                (PushEntry::Ready(_), PushEntry::Pending(key2)) => {
                    pair_answer(resting, start) == (PairAction::<T1, T2, E>::PollSecond { key2 })
                },
                _ => true,
            }
        }),
{
    let start = seq![PairEvent::<T1, T2, E>::Start];
    assert(start.push(PairEvent::First(reply1)).drop_last() == start);
    reveal_with_fuel(pair_run, 3);
}

/// A pair that is given up while a poll is under way leaves nothing to
/// cancel.
pub proof fn pair_cancels_nothing_amid_a_poll<T1: Operation, T2: Operation, E>(
    op1: T1,
    op2: T2,
    events: Seq<PairEvent<T1, T2, E>>,
)
    requires
        pair_admits(PairPhase::Idle { op1, op2 }, events),
        events.len() > 0,
        !(pair_answer(PairPhase::Idle { op1, op2 }, events) is Ready),
        !(pair_answer(PairPhase::Idle { op1, op2 }, events) is Pending),
    ensures
        pair_run(PairPhase::Idle { op1, op2 }, events).outstanding() == (
            None::<T1::Key>,
            None::<T2::Key>,
        ),
{
    pair_holds_latest_word(op1, op2, events.drop_last());
}

/// A pair that has been given up takes nothing more and has nothing more to
/// cancel.
pub proof fn pair_is_over_once_given_up<T1: Operation, T2: Operation, E>(
    event: PairEvent<T1, T2, E>,
)
    ensures
        !PairPhase::<T1, T2>::Finished.accepts(event),
        PairPhase::<T1, T2>::Finished.outstanding() == (None::<T1::Key>, None::<T2::Key>),
{
}

} // verus!

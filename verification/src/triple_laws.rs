//! What holds of a linked triple over its whole life.

use crate::operation::{Operation, PushEntry};
use crate::triple::{TripleAction, TripleEvent, TriplePhase};
use vstd::prelude::*;

verus! {

/// The phase after `events`, from `phase` on.
pub open spec fn triple_run<T1: Operation, T2: Operation, T3: Operation, E>(
    phase: TriplePhase<T1, T2, T3>,
    events: Seq<TripleEvent<T1, T2, T3, E>>,
) -> TriplePhase<T1, T2, T3>
    decreases events.len(),
{
    if events.len() == 0 {
        phase
    } else {
        triple_run(phase, events.drop_last()).next(events.last()).0
    }
}

/// Whether each of `events` is accepted when it comes, from `phase` on.
pub open spec fn triple_admits<T1: Operation, T2: Operation, T3: Operation, E>(
    phase: TriplePhase<T1, T2, T3>,
    events: Seq<TripleEvent<T1, T2, T3, E>>,
) -> bool
    decreases events.len(),
{
    events.len() == 0 || {
        &&& triple_admits(phase, events.drop_last())
        &&& triple_run(phase, events.drop_last()).accepts(events.last())
    }
}

/// What is asked for after the last of `events`, from `phase` on.
pub open spec fn triple_answer<T1: Operation, T2: Operation, T3: Operation, E>(
    phase: TriplePhase<T1, T2, T3>,
    events: Seq<TripleEvent<T1, T2, T3, E>>,
) -> TripleAction<T1, T2, T3, E>
    recommends
        events.len() > 0,
{
    triple_run(phase, events.drop_last()).next(events.last()).1
}

/// The runtime's latest word on the first operation.
pub open spec fn triple_first_entry<T1: Operation, T2: Operation, T3: Operation, E>(
    events: Seq<TripleEvent<T1, T2, T3, E>>,
) -> Option<PushEntry<T1::Key, T1::Output>>
    decreases events.len(),
{
    if events.len() == 0 {
        None
    } else {
        match events.last() {
            TripleEvent::Submission(Ok((key1, _, _))) => Some(PushEntry::Pending(key1)),
            TripleEvent::First(entry) => Some(entry),
            _ => triple_first_entry(events.drop_last()),
        }
    }
}

/// The runtime's latest word on the second operation.
pub open spec fn triple_second_entry<T1: Operation, T2: Operation, T3: Operation, E>(
    events: Seq<TripleEvent<T1, T2, T3, E>>,
) -> Option<PushEntry<T2::Key, T2::Output>>
    decreases events.len(),
{
    if events.len() == 0 {
        None
    } else {
        match events.last() {
            TripleEvent::Submission(Ok((_, key2, _))) => Some(PushEntry::Pending(key2)),
            TripleEvent::Second(entry) => Some(entry),
            _ => triple_second_entry(events.drop_last()),
        }
    }
}

/// The runtime's latest word on the third operation.
pub open spec fn triple_third_entry<T1: Operation, T2: Operation, T3: Operation, E>(
    events: Seq<TripleEvent<T1, T2, T3, E>>,
) -> Option<PushEntry<T3::Key, T3::Output>>
    decreases events.len(),
{
    if events.len() == 0 {
        None
    } else {
        match events.last() {
            TripleEvent::Submission(Ok((_, _, key3))) => Some(PushEntry::Pending(key3)),
            TripleEvent::Third(entry) => Some(entry),
            _ => triple_third_entry(events.drop_last()),
        }
    }
}

/// At every moment of its life a triple holds the runtime's latest word on
/// each of its operations: the operations themselves before they are
/// submitted, the latest key of one in flight, the result of one that has
/// completed. The key that it does not hold is the one that the runtime is
/// being asked about. It is finished only when all operations have completed
/// or the submission has failed.
pub proof fn triple_holds_latest_word<T1: Operation, T2: Operation, T3: Operation, E>(
    op1: T1,
    op2: T2,
    op3: T3,
    events: Seq<TripleEvent<T1, T2, T3, E>>,
)
    requires
        triple_admits(TriplePhase::Idle { op1, op2, op3 }, events),
    ensures
        match triple_run(TriplePhase::Idle { op1, op2, op3 }, events) {
            TriplePhase::Idle { op1: held1, op2: held2, op3: held3 } => {
                &&& events.len() == 0
                &&& held1 == op1
                &&& held2 == op2
                &&& held3 == op3
            },
            TriplePhase::Submitting => {
                &&& events.len() == 1
                &&& events[0] is Start
            },
            TriplePhase::InFlight { first, second, third } => {
                &&& triple_first_entry(events) == Some(first)
                &&& triple_second_entry(events) == Some(second)
                &&& triple_third_entry(events) == Some(third)
                &&& first is Pending || second is Pending || third is Pending
            },
            TriplePhase::PollingFirst { second, third } => {
                &&& PushEntry::latest_key(triple_first_entry(events)) is Some
                &&& triple_second_entry(events) == Some(second)
                &&& triple_third_entry(events) == Some(third)
            },
            TriplePhase::PollingSecond { first, third } => {
                &&& triple_first_entry(events) == Some(first)
                &&& PushEntry::latest_key(triple_second_entry(events)) is Some
                &&& triple_third_entry(events) == Some(third)
            },
            TriplePhase::PollingThird { first, second } => {
                &&& triple_first_entry(events) == Some(first)
                &&& triple_second_entry(events) == Some(second)
                &&& PushEntry::latest_key(triple_third_entry(events)) is Some
            },
            TriplePhase::Finished => {
                ||| {
                    &&& triple_first_entry(events) matches Some(PushEntry::Ready(_))
                    &&& triple_second_entry(events) matches Some(PushEntry::Ready(_))
                    &&& triple_third_entry(events) matches Some(PushEntry::Ready(_))
                }
                ||| {
                    &&& events.len() == 2
                    &&& events[0] is Start
                    &&& events[1] matches TripleEvent::Submission(Err(_))
                }
            },
        },
    decreases events.len(),
{
    if events.len() > 0 {
        triple_holds_latest_word(op1, op2, op3, events.drop_last());
        reveal_with_fuel(triple_first_entry, 3);
        reveal_with_fuel(triple_second_entry, 3);
        reveal_with_fuel(triple_third_entry, 3);
    }
}

/// A triple resolves exactly when all of its operations have completed, with
/// the result of each in the order of the operations; and it fails exactly
/// when the submission fails, with the error of the submission.
pub proof fn triple_resolves_when_all_complete<T1: Operation, T2: Operation, T3: Operation, E>(
    op1: T1,
    op2: T2,
    op3: T3,
    events: Seq<TripleEvent<T1, T2, T3, E>>,
)
    requires
        triple_admits(TriplePhase::Idle { op1, op2, op3 }, events),
        events.len() > 0,
    ensures
        match (triple_first_entry(events), triple_second_entry(events), triple_third_entry(events)) {
            (
                Some(PushEntry::Ready(r1)),
                Some(PushEntry::Ready(r2)),
                Some(PushEntry::Ready(r3)),
            ) => triple_answer(TriplePhase::Idle { op1, op2, op3 }, events) == TripleAction::<
                T1,
                T2,
                T3,
                E,
            >::Ready(Ok((r1, r2, r3))),
            _ => !(triple_answer(
                TriplePhase::Idle { op1, op2, op3 },
                events,
            ) matches TripleAction::Ready(Ok(_))),
        },
        match events.last() {
            TripleEvent::Submission(Err(error)) => triple_answer(
                TriplePhase::Idle { op1, op2, op3 },
                events,
            ) == TripleAction::<T1, T2, T3, E>::Ready(Err(error)),
            _ => !(triple_answer(
                TriplePhase::Idle { op1, op2, op3 },
                events,
            ) matches TripleAction::Ready(Err(_))),
        },
{
    triple_holds_latest_word(op1, op2, op3, events.drop_last());
    reveal_with_fuel(triple_first_entry, 3);
    reveal_with_fuel(triple_second_entry, 3);
    reveal_with_fuel(triple_third_entry, 3);
}

/// A triple that has returned its output accepts nothing more; one that has
/// returned pending accepts the next poll and nothing else.
pub proof fn triple_is_over_once_ready<T1: Operation, T2: Operation, T3: Operation, E>(
    op1: T1,
    op2: T2,
    op3: T3,
    events: Seq<TripleEvent<T1, T2, T3, E>>,
    event: TripleEvent<T1, T2, T3, E>,
)
    requires
        triple_admits(TriplePhase::Idle { op1, op2, op3 }, events),
        events.len() > 0,
    ensures
        triple_answer(TriplePhase::Idle { op1, op2, op3 }, events) is Ready ==> !triple_admits(
            TriplePhase::Idle { op1, op2, op3 },
            events.push(event),
        ),
        triple_answer(TriplePhase::Idle { op1, op2, op3 }, events) is Pending ==> (triple_admits(
            TriplePhase::Idle { op1, op2, op3 },
            events.push(event),
        ) <==> event is Start),
{
    assert(events.push(event).drop_last() == events);
}

/// Every start of a history of events is a history of its own.
proof fn triple_admits_prefix<T1: Operation, T2: Operation, T3: Operation, E>(
    phase: TriplePhase<T1, T2, T3>,
    events: Seq<TripleEvent<T1, T2, T3, E>>,
    n: int,
)
    requires
        triple_admits(phase, events),
        0 <= n <= events.len(),
    ensures
        triple_admits(phase, events.take(n)),
    decreases events.len(),
{
    if n < events.len() {
        triple_admits_prefix(phase, events.drop_last(), n);
        assert(events.drop_last().take(n) == events.take(n));
    } else {
        assert(events.take(n) == events);
    }
}

/// A triple submits its operations once, all of them and in their order, at
/// the start of its first poll.
pub proof fn triple_submits_once<T1: Operation, T2: Operation, T3: Operation, E>(
    op1: T1,
    op2: T2,
    op3: T3,
    events: Seq<TripleEvent<T1, T2, T3, E>>,
    i: int,
)
    requires
        triple_admits(TriplePhase::Idle { op1, op2, op3 }, events),
        0 <= i < events.len(),
    ensures
        triple_answer(TriplePhase::Idle { op1, op2, op3 }, events.take(i + 1)) is Submit <==> i
            == 0,
        i == 0 ==> triple_answer(TriplePhase::Idle { op1, op2, op3 }, events.take(i + 1)) == (
        TripleAction::<T1, T2, T3, E>::Submit { op1, op2, op3 }),
        events[i] is Submission <==> i == 1,
{
    let idle = TriplePhase::Idle { op1, op2, op3 };
    let until = events.take(i + 1);
    triple_admits_prefix(idle, events, i + 1);
    triple_holds_latest_word(op1, op2, op3, until.drop_last());
    reveal_with_fuel(triple_run, 3);
    reveal_with_fuel(triple_admits, 3);
}

/// A triple asks about an operation by the key that the runtime last gave for
/// it.
pub proof fn triple_asks_by_latest_key<T1: Operation, T2: Operation, T3: Operation, E>(
    op1: T1,
    op2: T2,
    op3: T3,
    events: Seq<TripleEvent<T1, T2, T3, E>>,
)
    requires
        triple_admits(TriplePhase::Idle { op1, op2, op3 }, events),
        events.len() > 0,
    ensures
        triple_answer(
            TriplePhase::Idle { op1, op2, op3 },
            events,
        ) matches TripleAction::PollFirst { key1 } ==> triple_first_entry(events) == Some(
            PushEntry::<_, T1::Output>::Pending(key1),
        ),
        triple_answer(
            TriplePhase::Idle { op1, op2, op3 },
            events,
        ) matches TripleAction::PollSecond { key2 } ==> triple_second_entry(events) == Some(
            PushEntry::<_, T2::Output>::Pending(key2),
        ),
        triple_answer(
            TriplePhase::Idle { op1, op2, op3 },
            events,
        ) matches TripleAction::PollThird { key3 } ==> triple_third_entry(events) == Some(
            PushEntry::<_, T3::Output>::Pending(key3),
        ),
{
    triple_holds_latest_word(op1, op2, op3, events.drop_last());
}

/// Once the first operation has completed its result is kept, and the runtime
/// is not asked about it again.
pub proof fn triple_keeps_first_result<T1: Operation, T2: Operation, T3: Operation, E>(
    op1: T1,
    op2: T2,
    op3: T3,
    events: Seq<TripleEvent<T1, T2, T3, E>>,
    i: int,
    r1: T1::Output,
)
    requires
        triple_admits(TriplePhase::Idle { op1, op2, op3 }, events),
        0 <= i < events.len(),
        events[i] == TripleEvent::<T1, T2, T3, E>::First(PushEntry::Ready(r1)),
    ensures
        triple_first_entry(events) == Some(PushEntry::<T1::Key, _>::Ready(r1)),
        !(triple_answer(TriplePhase::Idle { op1, op2, op3 }, events) is PollFirst),
        i < events.len() - 1 ==> !(events.last() is First),
    decreases events.len(),
{
    let before = events.drop_last();
    if i < before.len() {
        triple_keeps_first_result(op1, op2, op3, before, i, r1);
        triple_submits_once(op1, op2, op3, events, events.len() - 1);
        triple_submits_once(op1, op2, op3, events, i);
    }
    triple_holds_latest_word(op1, op2, op3, before);
    triple_asks_by_latest_key(op1, op2, op3, events);
}

/// Once the second operation has completed its result is kept, and the runtime
/// is not asked about it again.
pub proof fn triple_keeps_second_result<T1: Operation, T2: Operation, T3: Operation, E>(
    op1: T1,
    op2: T2,
    op3: T3,
    events: Seq<TripleEvent<T1, T2, T3, E>>,
    i: int,
    r2: T2::Output,
)
    requires
        triple_admits(TriplePhase::Idle { op1, op2, op3 }, events),
        0 <= i < events.len(),
        events[i] == TripleEvent::<T1, T2, T3, E>::Second(PushEntry::Ready(r2)),
    ensures
        triple_second_entry(events) == Some(PushEntry::<T2::Key, _>::Ready(r2)),
        !(triple_answer(TriplePhase::Idle { op1, op2, op3 }, events) is PollSecond),
        i < events.len() - 1 ==> !(events.last() is Second),
    decreases events.len(),
{
    let before = events.drop_last();
    if i < before.len() {
        triple_keeps_second_result(op1, op2, op3, before, i, r2);
        triple_submits_once(op1, op2, op3, events, events.len() - 1);
        triple_submits_once(op1, op2, op3, events, i);
    }
    triple_holds_latest_word(op1, op2, op3, before);
    triple_asks_by_latest_key(op1, op2, op3, events);
}

/// Once the third operation has completed its result is kept, and the runtime
/// is not asked about it again.
pub proof fn triple_keeps_third_result<T1: Operation, T2: Operation, T3: Operation, E>(
    op1: T1,
    op2: T2,
    op3: T3,
    events: Seq<TripleEvent<T1, T2, T3, E>>,
    i: int,
    r3: T3::Output,
)
    requires
        triple_admits(TriplePhase::Idle { op1, op2, op3 }, events),
        0 <= i < events.len(),
        events[i] == TripleEvent::<T1, T2, T3, E>::Third(PushEntry::Ready(r3)),
    ensures
        triple_third_entry(events) == Some(PushEntry::<T3::Key, _>::Ready(r3)),
        !(triple_answer(TriplePhase::Idle { op1, op2, op3 }, events) is PollThird),
        i < events.len() - 1 ==> !(events.last() is Third),
    decreases events.len(),
{
    let before = events.drop_last();
    if i < before.len() {
        triple_keeps_third_result(op1, op2, op3, before, i, r3);
        triple_submits_once(op1, op2, op3, events, events.len() - 1);
        triple_submits_once(op1, op2, op3, events, i);
    }
    triple_holds_latest_word(op1, op2, op3, before);
    triple_asks_by_latest_key(op1, op2, op3, events);
}

/// Giving a triple up while no poll is under way cancels exactly the
/// operations in flight: the latest key of each that has been submitted and
/// has not completed.
pub proof fn triple_cancels_what_is_in_flight<T1: Operation, T2: Operation, T3: Operation, E>(
    op1: T1,
    op2: T2,
    op3: T3,
    events: Seq<TripleEvent<T1, T2, T3, E>>,
)
    requires
        triple_admits(TriplePhase::Idle { op1, op2, op3 }, events),
        events.len() == 0 || triple_answer(TriplePhase::Idle { op1, op2, op3 }, events) is Ready
            || triple_answer(TriplePhase::Idle { op1, op2, op3 }, events) is Pending,
    ensures
        triple_run(TriplePhase::Idle { op1, op2, op3 }, events).outstanding() == (
            PushEntry::latest_key(triple_first_entry(events)),
            PushEntry::latest_key(triple_second_entry(events)),
            PushEntry::latest_key(triple_third_entry(events)),
        ),
        match triple_first_entry(events) {
            Some(PushEntry::Pending(key1)) => triple_run(
                TriplePhase::Idle { op1, op2, op3 },
                events,
            ).outstanding().0 == Some(key1),
            _ => triple_run(TriplePhase::Idle { op1, op2, op3 }, events).outstanding().0 is None,
        },
        match triple_second_entry(events) {
            Some(PushEntry::Pending(key2)) => triple_run(
                TriplePhase::Idle { op1, op2, op3 },
                events,
            ).outstanding().1 == Some(key2),
            _ => triple_run(TriplePhase::Idle { op1, op2, op3 }, events).outstanding().1 is None,
        },
        match triple_third_entry(events) {
            Some(PushEntry::Pending(key3)) => triple_run(
                TriplePhase::Idle { op1, op2, op3 },
                events,
            ).outstanding().2 == Some(key3),
            _ => triple_run(TriplePhase::Idle { op1, op2, op3 }, events).outstanding().2 is None,
        },
{
    triple_holds_latest_word(op1, op2, op3, events);
    reveal_with_fuel(triple_first_entry, 3);
    reveal_with_fuel(triple_second_entry, 3);
    reveal_with_fuel(triple_third_entry, 3);
}

/// The events of a whole poll of a chain in flight, in which the runtime
/// answers with `reply1`, `reply2` and `reply3`.
pub open spec fn triple_whole_poll<T1: Operation, T2: Operation, T3: Operation, E>(
    first: PushEntry<T1::Key, T1::Output>,
    second: PushEntry<T2::Key, T2::Output>,
    third: PushEntry<T3::Key, T3::Output>,
    reply1: PushEntry<T1::Key, T1::Output>,
    reply2: PushEntry<T2::Key, T2::Output>,
    reply3: PushEntry<T3::Key, T3::Output>,
) -> Seq<TripleEvent<T1, T2, T3, E>> {
    let start = seq![TripleEvent::<T1, T2, T3, E>::Start];
    let asked1 = if first is Pending {
        start.push(TripleEvent::First(reply1))
    } else {
        start
    };
    let asked2 = if second is Pending {
        asked1.push(TripleEvent::Second(reply2))
    } else {
        asked1
    };
    if third is Pending {
        asked2.push(TripleEvent::Third(reply3))
    } else {
        asked2
    }
}

/// A poll of a chain in flight asks once about each operation in flight, in
/// the order of the operations, and takes up every answer before it returns.
pub proof fn triple_poll_asks_each_in_flight<T1: Operation, T2: Operation, T3: Operation, E>(
    first: PushEntry<T1::Key, T1::Output>,
    second: PushEntry<T2::Key, T2::Output>,
    third: PushEntry<T3::Key, T3::Output>,
    reply1: PushEntry<T1::Key, T1::Output>,
    reply2: PushEntry<T2::Key, T2::Output>,
    reply3: PushEntry<T3::Key, T3::Output>,
)
    requires
        first is Pending || second is Pending || third is Pending,
    ensures
        ({
            let resting = TriplePhase::<T1, T2, T3>::InFlight { first, second, third };
            let events = triple_whole_poll::<T1, T2, T3, E>(
                first,
                second,
                third,
                reply1,
                reply2,
                reply3,
            );
            &&& triple_admits(resting, events)
            &&& (triple_run(resting, events), triple_answer(resting, events)) == TriplePhase::<
                T1,
                T2,
                T3,
            >::settle::<E>(first.advance(reply1), second.advance(reply2), third.advance(reply3))
            &&& match (
                if first is Pending { reply1 } else { first },
                if second is Pending { reply2 } else { second },
                if third is Pending { reply3 } else { third },
            ) {
                (PushEntry::Ready(r1), PushEntry::Ready(r2), PushEntry::Ready(r3)) => {
                    &&& triple_run(resting, events) is Finished
                    &&& triple_answer(resting, events) == TripleAction::<T1, T2, T3, E>::Ready(
                        Ok((r1, r2, r3)),
                    )
                },
                (known1, known2, known3) => {
                    &&& triple_run(resting, events) == (TriplePhase::<T1, T2, T3>::InFlight {
                        first: known1,
                        second: known2,
                        third: known3,
                    })
                    &&& triple_answer(resting, events) is Pending
                },
            }
        }),
{
    let start = seq![TripleEvent::<T1, T2, T3, E>::Start];
    let asked1 = if first is Pending {
        start.push(TripleEvent::First(reply1))
    } else {
        start
    };
    let asked2 = if second is Pending {
        asked1.push(TripleEvent::Second(reply2))
    } else {
        asked1
    };
    assert(start.push(TripleEvent::First(reply1)).drop_last() == start);
    assert(asked1.push(TripleEvent::Second(reply2)).drop_last() == asked1);
    assert(asked2.push(TripleEvent::Third(reply3)).drop_last() == asked2);
    reveal_with_fuel(triple_run, 5);
    reveal_with_fuel(triple_admits, 5);
}

/// No poll of a chain in flight goes another way: whatever the runtime
/// answers, the events from the start of the poll to its return are those of
/// [`triple_whole_poll`].
pub proof fn triple_every_poll_is_whole<T1: Operation, T2: Operation, T3: Operation, E>(
    first: PushEntry<T1::Key, T1::Output>,
    second: PushEntry<T2::Key, T2::Output>,
    third: PushEntry<T3::Key, T3::Output>,
    events: Seq<TripleEvent<T1, T2, T3, E>>,
)
    requires
        first is Pending || second is Pending || third is Pending,
        triple_admits(TriplePhase::InFlight { first, second, third }, events),
        events.len() > 0,
        forall|i: int| 0 < i < events.len() ==> !(events[i] is Start),
        triple_answer(TriplePhase::InFlight { first, second, third }, events) is Ready
            || triple_answer(TriplePhase::InFlight { first, second, third }, events) is Pending,
    ensures
        exists|
            reply1: PushEntry<T1::Key, T1::Output>,
            reply2: PushEntry<T2::Key, T2::Output>,
            reply3: PushEntry<T3::Key, T3::Output>,
        | events == #[trigger] triple_whole_poll::<T1, T2, T3, E>(
            first,
            second,
            third,
            reply1,
            reply2,
            reply3,
        ),
{
    let resting = TriplePhase::<T1, T2, T3>::InFlight { first, second, third };
    let asked = triple_calls_left(resting) as int;
    reveal_with_fuel(triple_run, 6);
    reveal_with_fuel(triple_admits, 6);
    if events.len() > asked + 1 {
        triple_admits_prefix(resting, events, asked + 2);
        assert(!(events.take(asked + 2).last() is Start));
    }
    let reply1 = if first is Pending {
        events[1]->First_0
    } else {
        first
    };
    let reply2 = if second is Pending {
        events[if first is Pending { 2int } else { 1 }]->Second_0
    } else {
        second
    };
    let reply3 = if third is Pending {
        events[asked]->Third_0
    } else {
        third
    };
    assert(events =~= triple_whole_poll::<T1, T2, T3, E>(
        first,
        second,
        third,
        reply1,
        reply2,
        reply3,
    ));
}

/// The first poll of a triple submits the chain and, if that succeeds, asks
/// about all operations at once.
pub proof fn triple_first_poll<T1: Operation, T2: Operation, T3: Operation, E>(
    op1: T1,
    op2: T2,
    op3: T3,
    key1: T1::Key,
    key2: T2::Key,
    key3: T3::Key,
    reply1: PushEntry<T1::Key, T1::Output>,
    reply2: PushEntry<T2::Key, T2::Output>,
    reply3: PushEntry<T3::Key, T3::Output>,
)
    ensures
        ({
            let idle = TriplePhase::Idle { op1, op2, op3 };
            let events = seq![
                TripleEvent::<T1, T2, T3, E>::Start,
                TripleEvent::Submission(Ok((key1, key2, key3))),
                TripleEvent::First(reply1),
                TripleEvent::Second(reply2),
                TripleEvent::Third(reply3),
            ];
            &&& triple_admits(idle, events)
            &&& (triple_run(idle, events), triple_answer(idle, events)) == TriplePhase::<
                T1,
                T2,
                T3,
            >::settle::<E>(reply1, reply2, reply3)
            &&& match (reply1, reply2, reply3) {
                (PushEntry::Ready(r1), PushEntry::Ready(r2), PushEntry::Ready(r3)) => {
                    &&& triple_run(idle, events) is Finished
                    &&& triple_answer(idle, events) == TripleAction::<T1, T2, T3, E>::Ready(
                        Ok((r1, r2, r3)),
                    )
                },
                _ => {
                    &&& triple_run(idle, events) == (TriplePhase::<T1, T2, T3>::InFlight {
                        first: reply1,
                        second: reply2,
                        third: reply3,
                    })
                    &&& triple_answer(idle, events) is Pending
                },
            }
            &&& triple_answer(idle, events.take(1)) == (TripleAction::<T1, T2, T3, E>::Submit {
                op1,
                op2,
                op3,
            })
            &&& triple_answer(idle, events.take(2)) == (TripleAction::<T1, T2, T3, E>::PollFirst {
                key1,
            })
            &&& triple_answer(idle, events.take(3)) == (TripleAction::<T1, T2, T3, E>::PollSecond {
                key2,
            })
            &&& triple_answer(idle, events.take(4)) == (TripleAction::<T1, T2, T3, E>::PollThird {
                key3,
            })
        }),
{
    reveal_with_fuel(triple_run, 6);
    reveal_with_fuel(triple_admits, 6);
}

/// A poll in which the runtime reports no completion and gives back every key
/// leaves the triple as it was.
pub proof fn triple_poll_without_completion<T1: Operation, T2: Operation, T3: Operation, E>(
    first: PushEntry<T1::Key, T1::Output>,
    second: PushEntry<T2::Key, T2::Output>,
    third: PushEntry<T3::Key, T3::Output>,
)
    requires
        first is Pending || second is Pending || third is Pending,
    ensures
        ({
            let resting = TriplePhase::<T1, T2, T3>::InFlight { first, second, third };
            let events = triple_whole_poll::<T1, T2, T3, E>(
                first,
                second,
                third,
                first,
                second,
                third,
            );
            &&& triple_run(resting, events) == resting
            &&& triple_answer(resting, events) is Pending
        }),
{
    triple_poll_asks_each_in_flight::<T1, T2, T3, E>(first, second, third, first, second, third);
}

/// How many calls into the runtime a poll still asks for, if no submission
/// fails.
pub open spec fn triple_calls_left<T1: Operation, T2: Operation, T3: Operation>(
    phase: TriplePhase<T1, T2, T3>,
) -> nat {
    match phase {
        TriplePhase::Idle { .. } => 4,
        TriplePhase::Submitting => 3,
        TriplePhase::InFlight { first, second, third } => first.calls() + second.calls()
            + third.calls(),
        TriplePhase::PollingFirst { second, third } => second.calls() + third.calls(),
        TriplePhase::PollingSecond { third, .. } => third.calls(),
        TriplePhase::PollingThird { .. } => 0,
        TriplePhase::Finished => 0,
    }
}

/// A poll ends: each call that it asks for is one fewer left, at most four
/// from its start, and it returns exactly when none is left or the submission
/// has failed.
pub proof fn triple_poll_ends<T1: Operation, T2: Operation, T3: Operation, E>(
    phase: TriplePhase<T1, T2, T3>,
    event: TripleEvent<T1, T2, T3, E>,
)
    requires
        phase.accepts(event),
    ensures
        triple_calls_left(phase) <= 4,
        phase.next(event).1 is Ready || phase.next(event).1 is Pending <==> triple_calls_left(phase)
            == 0 || event matches TripleEvent::Submission(Err(_)),
        !(phase.next(event).1 is Ready || phase.next(event).1 is Pending) ==> triple_calls_left(
            phase.next(event).0,
        ) + 1 == triple_calls_left(phase),
{
}

/// Every outcome of a call can be reported, and nothing else: a triple that
/// has asked for a call takes the outcome of that call next, be it a success or
/// a failure, an operation in flight or a completed one. Before its first poll,
/// and after each poll that returned pending, it takes the start of a poll;
/// after its output it takes nothing.
pub proof fn triple_accepts_every_outcome<T1: Operation, T2: Operation, T3: Operation, E>(
    op1: T1,
    op2: T2,
    op3: T3,
    events: Seq<TripleEvent<T1, T2, T3, E>>,
    event: TripleEvent<T1, T2, T3, E>,
)
    requires
        triple_admits(TriplePhase::Idle { op1, op2, op3 }, events),
    ensures
        events.len() == 0 ==> (triple_admits(TriplePhase::Idle { op1, op2, op3 }, events.push(event))
            <==> event is Start),
        events.len() > 0 ==> (triple_admits(TriplePhase::Idle { op1, op2, op3 }, events.push(event))
            <==> (match triple_answer(TriplePhase::Idle { op1, op2, op3 }, events) {
            TripleAction::Submit { .. } => event is Submission,
            TripleAction::PollFirst { .. } => event is First,
            TripleAction::PollSecond { .. } => event is Second,
            TripleAction::PollThird { .. } => event is Third,
            TripleAction::Pending => event is Start,
            TripleAction::Ready(_) => false,
        })),
{
    assert(events.push(event).drop_last() == events);
    if events.len() > 0 {
        triple_holds_latest_word(op1, op2, op3, events.drop_last());
    }
}

/// A chain that cannot be submitted makes the future resolve at once, in its
/// first poll, with the error of the submission, whatever that error is; the
/// future is over then and leaves nothing to cancel.
pub proof fn triple_fails_with_submission_error<T1: Operation, T2: Operation, T3: Operation, E>(
    op1: T1,
    op2: T2,
    op3: T3,
    error: E,
)
    ensures
        ({
            let idle = TriplePhase::Idle { op1, op2, op3 };
            let events = seq![
                TripleEvent::<T1, T2, T3, E>::Start,
                TripleEvent::Submission(Err(error)),
            ];
            &&& triple_admits(idle, events)
            &&& triple_answer(idle, events) == TripleAction::<T1, T2, T3, E>::Ready(Err(error))
            &&& triple_run(idle, events) is Finished
            &&& triple_run(idle, events).outstanding() == (
                None::<T1::Key>,
                None::<T2::Key>,
                None::<T3::Key>,
            )
            &&& forall|event: TripleEvent<T1, T2, T3, E>|
                !#[trigger] triple_admits(idle, events.push(event))
        }),
{
    let idle = TriplePhase::Idle { op1, op2, op3 };
    let start = seq![TripleEvent::<T1, T2, T3, E>::Start];
    let events = seq![TripleEvent::<T1, T2, T3, E>::Start, TripleEvent::Submission(Err(error))];
    assert(start.drop_last() == Seq::<TripleEvent<T1, T2, T3, E>>::empty());
    assert(events.drop_last() == start);
    reveal_with_fuel(triple_run, 3);
    reveal_with_fuel(triple_admits, 3);
    assert forall|event: TripleEvent<T1, T2, T3, E>|
        !#[trigger] triple_admits(idle, events.push(event)) by {
        triple_accepts_every_outcome(op1, op2, op3, events, event);
    }
}

/// A poll of a chain in flight asks about the operations in their order, each
/// by the key that is held for it, and passes over those that have completed.
pub proof fn triple_asks_in_order<T1: Operation, T2: Operation, T3: Operation, E>(
    first: PushEntry<T1::Key, T1::Output>,
    second: PushEntry<T2::Key, T2::Output>,
    third: PushEntry<T3::Key, T3::Output>,
    reply1: PushEntry<T1::Key, T1::Output>,
    reply2: PushEntry<T2::Key, T2::Output>,
)
    ensures
        ({
            let resting = TriplePhase::<T1, T2, T3>::InFlight { first, second, third };
            let start = seq![TripleEvent::<T1, T2, T3, E>::Start];
            let asked1 = if first is Pending {
                start.push(TripleEvent::First(reply1))
            } else {
                start
            };
            let asked2 = if second is Pending {
                asked1.push(TripleEvent::Second(reply2))
            } else {
                asked1
            };
            &&& first matches PushEntry::Pending(key1) ==> triple_answer(resting, start) == (
            TripleAction::<T1, T2, T3, E>::PollFirst { key1 })
            &&& second matches PushEntry::Pending(key2) ==> triple_answer(resting, asked1) == (
            TripleAction::<T1, T2, T3, E>::PollSecond { key2 })
            &&& third matches PushEntry::Pending(key3) ==> triple_answer(resting, asked2) == (
            TripleAction::<T1, T2, T3, E>::PollThird { key3 })
            &&& first is Ready ==> !(triple_answer(resting, start) is PollFirst)
            &&& second is Ready ==> !(triple_answer(resting, asked1) is PollSecond)
            &&& third is Ready ==> !(triple_answer(resting, asked2) is PollThird)
        }),
{
    let start = seq![TripleEvent::<T1, T2, T3, E>::Start];
    let asked1 = if first is Pending {
        start.push(TripleEvent::First(reply1))
    } else {
        start
    };
    assert(start.push(TripleEvent::First(reply1)).drop_last() == start);
    assert(asked1.push(TripleEvent::Second(reply2)).drop_last() == asked1);
    reveal_with_fuel(triple_run, 4);
}

/// A triple that is given up while a poll is under way leaves nothing to
/// cancel.
pub proof fn triple_cancels_nothing_amid_a_poll<T1: Operation, T2: Operation, T3: Operation, E>(
    op1: T1,
    op2: T2,
    op3: T3,
    events: Seq<TripleEvent<T1, T2, T3, E>>,
)
    requires
        triple_admits(TriplePhase::Idle { op1, op2, op3 }, events),
        events.len() > 0,
        !(triple_answer(TriplePhase::Idle { op1, op2, op3 }, events) is Ready),
        !(triple_answer(TriplePhase::Idle { op1, op2, op3 }, events) is Pending),
    ensures
        triple_run(TriplePhase::Idle { op1, op2, op3 }, events).outstanding() == (
            None::<T1::Key>,
            None::<T2::Key>,
            None::<T3::Key>,
        ),
{
    triple_holds_latest_word(op1, op2, op3, events.drop_last());
}

/// A triple that has been given up takes nothing more and has nothing more to
/// cancel.
pub proof fn triple_is_over_once_given_up<T1: Operation, T2: Operation, T3: Operation, E>(
    event: TripleEvent<T1, T2, T3, E>,
)
    ensures
        !TriplePhase::<T1, T2, T3>::Finished.accepts(event),
        TriplePhase::<T1, T2, T3>::Finished.outstanding() == (
            None::<T1::Key>,
            None::<T2::Key>,
            None::<T3::Key>,
        ),
{
}

} // verus!

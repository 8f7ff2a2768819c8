//! The future of a chain of three linked operations.

use crate::operation::{Operation, PushEntry};
use vstd::pervasive::unreached;
use vstd::prelude::*;

verus! {

/// What a triple is told.
pub enum TripleEvent<T1: Operation, T2: Operation, T3: Operation, E> {
    /// The future is being polled.
    Start,
    /// What came of submitting the chain: the keys of its operations, or the
    /// error that kept the chain from being submitted.
    Submission(Result<(T1::Key, T2::Key, T3::Key), E>),
    /// What the runtime says of the first operation.
    First(PushEntry<T1::Key, T1::Output>),
    /// What the runtime says of the second operation.
    Second(PushEntry<T2::Key, T2::Output>),
    /// What the runtime says of the third operation.
    Third(PushEntry<T3::Key, T3::Output>),
}

/// What a triple asks for.
pub enum TripleAction<T1: Operation, T2: Operation, T3: Operation, E> {
    /// Submit the three operations as a linked chain, then report
    /// [`TripleEvent::Submission`].
    Submit { op1: T1, op2: T2, op3: T3 },
    /// Ask the runtime about the first operation, then report
    /// [`TripleEvent::First`].
    PollFirst { key1: T1::Key },
    /// Ask the runtime about the second operation, then report
    /// [`TripleEvent::Second`].
    PollSecond { key2: T2::Key },
    /// Ask the runtime about the third operation, then report
    /// [`TripleEvent::Third`].
    PollThird { key3: T3::Key },
    /// Return from the poll: the future is ready with this output.
    Ready(Result<(T1::Output, T2::Output, T3::Output), E>),
    /// Return from the poll: the future is still pending.
    Pending,
}

/// The abstract state of a triple.
pub enum TriplePhase<T1: Operation, T2: Operation, T3: Operation> {
    /// Nothing has been submitted.
    Idle { op1: T1, op2: T2, op3: T3 },
    /// The chain has been submitted, no poll is under way, and this is the
    /// latest word on each of the operations.
    InFlight {
        first: PushEntry<T1::Key, T1::Output>,
        second: PushEntry<T2::Key, T2::Output>,
        third: PushEntry<T3::Key, T3::Output>,
    },
    /// The operations are with the runtime, which is submitting them.
    Submitting,
    /// The first key is with the runtime, which is asked about it.
    PollingFirst {
        second: PushEntry<T2::Key, T2::Output>,
        third: PushEntry<T3::Key, T3::Output>,
    },
    /// The second key is with the runtime, which is asked about it.
    PollingSecond {
        first: PushEntry<T1::Key, T1::Output>,
        third: PushEntry<T3::Key, T3::Output>,
    },
    /// The third key is with the runtime, which is asked about it.
    PollingThird {
        first: PushEntry<T1::Key, T1::Output>,
        second: PushEntry<T2::Key, T2::Output>,
    },
    /// The future holds neither operations nor keys.
    Finished,
}

impl<T1: Operation, T2: Operation, T3: Operation> TriplePhase<T1, T2, T3> {
    /// Whether a future can be in this phase: a chain rests in flight only as
    /// long as one of its operations is.
    pub open spec fn well_formed(self) -> bool {
        self matches TriplePhase::InFlight { first, second, third } ==> first is Pending || second is Pending || third is Pending
    }

    /// Whether `event` can come in this phase.
    pub open spec fn accepts<E>(self, event: TripleEvent<T1, T2, T3, E>) -> bool {
        match event {
            TripleEvent::Start => self is Idle || self is InFlight,
            TripleEvent::Submission(_) => self is Submitting,
            TripleEvent::First(_) => self is PollingFirst,
            TripleEvent::Second(_) => self is PollingSecond,
            TripleEvent::Third(_) => self is PollingThird,
        }
    }

    /// How a poll ends once there is nothing left to ask: it resolves if all
    /// operations have completed, else it keeps what is known of them.
    pub open spec fn settle<E>(
        first: PushEntry<T1::Key, T1::Output>,
        second: PushEntry<T2::Key, T2::Output>,
        third: PushEntry<T3::Key, T3::Output>,
    ) -> (Self, TripleAction<T1, T2, T3, E>) {
        match (first, second, third) {
            (PushEntry::Ready(r1), PushEntry::Ready(r2), PushEntry::Ready(r3)) => (
                TriplePhase::Finished,
                TripleAction::Ready(Ok((r1, r2, r3))),
            ),
            _ => (TriplePhase::InFlight { first, second, third }, TripleAction::Pending),
        }
    }

    /// How a poll goes on after the second operation: the third is asked about
    /// if it is in flight.
    pub open spec fn ask_third<E>(
        first: PushEntry<T1::Key, T1::Output>,
        second: PushEntry<T2::Key, T2::Output>,
        third: PushEntry<T3::Key, T3::Output>,
    ) -> (Self, TripleAction<T1, T2, T3, E>) {
        match third {
            PushEntry::Pending(key3) => (
                TriplePhase::PollingThird { first, second },
                TripleAction::PollThird { key3 },
            ),
            PushEntry::Ready(_) => Self::settle(first, second, third),
        }
    }

    /// How a poll goes on after the first operation: the second is asked
    /// about if it is in flight.
    pub open spec fn ask_second<E>(
        first: PushEntry<T1::Key, T1::Output>,
        second: PushEntry<T2::Key, T2::Output>,
        third: PushEntry<T3::Key, T3::Output>,
    ) -> (Self, TripleAction<T1, T2, T3, E>) {
        match second {
            PushEntry::Pending(key2) => (
                TriplePhase::PollingSecond { first, third },
                TripleAction::PollSecond { key2 },
            ),
            PushEntry::Ready(_) => Self::ask_third(first, second, third),
        }
    }

    /// How a poll of a submitted chain begins: the first operation is asked
    /// about if it is in flight.
    pub open spec fn ask_first<E>(
        first: PushEntry<T1::Key, T1::Output>,
        second: PushEntry<T2::Key, T2::Output>,
        third: PushEntry<T3::Key, T3::Output>,
    ) -> (Self, TripleAction<T1, T2, T3, E>) {
        match first {
            PushEntry::Pending(key1) => (
                TriplePhase::PollingFirst { second, third },
                TripleAction::PollFirst { key1 },
            ),
            PushEntry::Ready(_) => Self::ask_second(first, second, third),
        }
    }

    /// The phase that follows an event, and what is asked for then.
    pub open spec fn next<E>(self, event: TripleEvent<T1, T2, T3, E>) -> (
        Self,
        TripleAction<T1, T2, T3, E>,
    )
        recommends
            self.accepts(event),
    {
        match (self, event) {
            (TriplePhase::Idle { op1, op2, op3 }, TripleEvent::Start) => (
                TriplePhase::Submitting,
                TripleAction::Submit { op1, op2, op3 },
            ),
            (TriplePhase::InFlight { first, second, third }, TripleEvent::Start) => Self::ask_first(
                first,
                second,
                third,
            ),
            (
                TriplePhase::Submitting,
                TripleEvent::Submission(Ok((key1, key2, key3))),
            ) => Self::ask_first(
                PushEntry::Pending(key1),
                PushEntry::Pending(key2),
                PushEntry::Pending(key3),
            ),
            (TriplePhase::Submitting, TripleEvent::Submission(Err(error))) => (
                TriplePhase::Finished,
                TripleAction::Ready(Err(error)),
            ),
            (TriplePhase::PollingFirst { second, third }, TripleEvent::First(entry)) =>
                Self::ask_second(entry, second, third),
            (TriplePhase::PollingSecond { first, third }, TripleEvent::Second(entry)) =>
                Self::ask_third(first, entry, third),
            (TriplePhase::PollingThird { first, second }, TripleEvent::Third(entry)) =>
                Self::settle(first, second, entry),
            _ => arbitrary(),
        }
    }

    /// The keys of the operations that are in flight between two polls.
    pub open spec fn outstanding(self) -> (Option<T1::Key>, Option<T2::Key>, Option<T3::Key>) {
        match self {
            TriplePhase::InFlight { first, second, third } => (
                first.key(),
                second.key(),
                third.key(),
            ),
            _ => (None, None, None),
        }
    }
}

/// What a triple holds between two polls.
enum TripleState<T1: Operation, T2: Operation, T3: Operation> {
    /// The operations are ready to be submitted.
    Idle { op1: T1, op2: T2, op3: T3 },
    /// The operations are in flight.
    Submitted { key1: T1::Key, key2: T2::Key, key3: T3::Key },
    // One operation has completed.
    Done1 { r1: T1::Output, key2: T2::Key, key3: T3::Key },
    Done2 { key1: T1::Key, r2: T2::Output, key3: T3::Key },
    Done3 { key1: T1::Key, key2: T2::Key, r3: T3::Output },
    // Two operations have completed.
    Done12 { r1: T1::Output, r2: T2::Output, key3: T3::Key },
    Done13 { r1: T1::Output, key2: T2::Key, r3: T3::Output },
    Done23 { key1: T1::Key, r2: T2::Output, r3: T3::Output },
}

impl<T1: Operation, T2: Operation, T3: Operation> TripleState<T1, T2, T3> {
    spec fn phase(self) -> TriplePhase<T1, T2, T3> {
        match self {
            TripleState::Idle { op1, op2, op3 } => TriplePhase::Idle { op1, op2, op3 },
            TripleState::Submitted { key1, key2, key3 } => TriplePhase::InFlight {
                first: PushEntry::Pending(key1),
                second: PushEntry::Pending(key2),
                third: PushEntry::Pending(key3),
            },
            TripleState::Done1 { r1, key2, key3 } => TriplePhase::InFlight {
                first: PushEntry::Ready(r1),
                second: PushEntry::Pending(key2),
                third: PushEntry::Pending(key3),
            },
            TripleState::Done2 { key1, r2, key3 } => TriplePhase::InFlight {
                first: PushEntry::Pending(key1),
                second: PushEntry::Ready(r2),
                third: PushEntry::Pending(key3),
            },
            TripleState::Done3 { key1, key2, r3 } => TriplePhase::InFlight {
                first: PushEntry::Pending(key1),
                second: PushEntry::Pending(key2),
                third: PushEntry::Ready(r3),
            },
            TripleState::Done12 { r1, r2, key3 } => TriplePhase::InFlight {
                first: PushEntry::Ready(r1),
                second: PushEntry::Ready(r2),
                third: PushEntry::Pending(key3),
            },
            TripleState::Done13 { r1, key2, r3 } => TriplePhase::InFlight {
                first: PushEntry::Ready(r1),
                second: PushEntry::Pending(key2),
                third: PushEntry::Ready(r3),
            },
            TripleState::Done23 { key1, r2, r3 } => TriplePhase::InFlight {
                first: PushEntry::Pending(key1),
                second: PushEntry::Ready(r2),
                third: PushEntry::Ready(r3),
            },
        }
    }
}

/// What a triple holds.
enum TripleStage<T1: Operation, T2: Operation, T3: Operation> {
    Resting(TripleState<T1, T2, T3>),
    Submitting,
    PollingFirst {
        second: PushEntry<T2::Key, T2::Output>,
        third: PushEntry<T3::Key, T3::Output>,
    },
    PollingSecond {
        first: PushEntry<T1::Key, T1::Output>,
        third: PushEntry<T3::Key, T3::Output>,
    },
    PollingThird {
        first: PushEntry<T1::Key, T1::Output>,
        second: PushEntry<T2::Key, T2::Output>,
    },
    Finished,
}

impl<T1: Operation, T2: Operation, T3: Operation> TripleStage<T1, T2, T3> {
    spec fn phase(self) -> TriplePhase<T1, T2, T3> {
        match self {
            TripleStage::Resting(state) => state.phase(),
            TripleStage::Submitting => TriplePhase::Submitting,
            TripleStage::PollingFirst { second, third } => TriplePhase::PollingFirst {
                second,
                third,
            },
            TripleStage::PollingSecond { first, third } => TriplePhase::PollingSecond {
                first,
                third,
            },
            TripleStage::PollingThird { first, second } => TriplePhase::PollingThird {
                first,
                second,
            },
            TripleStage::Finished => TriplePhase::Finished,
        }
    }
}

/// The keys to cancel when a state is given up: those of all operations in
/// flight.
fn cancel_triple_keys<T1: Operation, T2: Operation, T3: Operation>(
    state: TripleState<T1, T2, T3>,
) -> (keys: (Option<T1::Key>, Option<T2::Key>, Option<T3::Key>))
    ensures
        keys == state.phase().outstanding(),
{
    match state {
        TripleState::Submitted { key1, key2, key3 } => (Some(key1), Some(key2), Some(key3)),
        TripleState::Done1 { key2, key3, .. } => (None, Some(key2), Some(key3)),
        TripleState::Done2 { key1, key3, .. } => (Some(key1), None, Some(key3)),
        TripleState::Done3 { key1, key2, .. } => (Some(key1), Some(key2), None),
        TripleState::Done12 { key3, .. } => (None, None, Some(key3)),
        TripleState::Done13 { key2, .. } => (None, Some(key2), None),
        TripleState::Done23 { key1, .. } => (Some(key1), None, None),
        TripleState::Idle { .. } => (None, None, None),
    }
}

/// The future that submits three operations as a linked chain.
///
/// The kernel executes each operation only after the one before it completes
/// successfully.
///
/// Resolves when **all** operations have completed, or with the error of the
/// submission if the chain could not be submitted.
pub struct SubmitLinkedTriple<T1: Operation, T2: Operation, T3: Operation> {
    stage: TripleStage<T1, T2, T3>,
}

impl<T1: Operation, T2: Operation, T3: Operation> View for SubmitLinkedTriple<T1, T2, T3> {
    type V = TriplePhase<T1, T2, T3>;

    closed spec fn view(&self) -> TriplePhase<T1, T2, T3> {
        self.stage.phase()
    }
}

impl<T1: Operation, T2: Operation, T3: Operation> SubmitLinkedTriple<T1, T2, T3> {
    /// A triple is in a well-formed phase at every moment.
    pub proof fn is_well_formed(self)
        ensures
            self@.well_formed(),
    {
    }

    /// A triple of operations that are yet to be submitted.
    pub fn new(op1: T1, op2: T2, op3: T3) -> (triple: Self)
        ensures
            triple@ == (TriplePhase::Idle { op1, op2, op3 }),
    {
        SubmitLinkedTriple { stage: TripleStage::Resting(TripleState::Idle { op1, op2, op3 }) }
    }

    /// Whether `poll` can be told `event` now.
    ///
    /// A future that has returned its output accepts nothing more.
    pub fn accepts<E>(&self, event: &TripleEvent<T1, T2, T3, E>) -> (accepted: bool)
        ensures
            accepted == self@.accepts(*event),
    {
        match (&self.stage, event) {
            (TripleStage::Resting(_), TripleEvent::Start) => true,
            (TripleStage::Submitting, TripleEvent::Submission(_)) => true,
            (TripleStage::PollingFirst { .. }, TripleEvent::First(_)) => true,
            (TripleStage::PollingSecond { .. }, TripleEvent::Second(_)) => true,
            (TripleStage::PollingThird { .. }, TripleEvent::Third(_)) => true,
            _ => false,
        }
    }

    /// Runs a poll of the future up to its next call into the runtime, or up
    /// to its end.
    ///
    /// A poll begins with [`TripleEvent::Start`]. Until it ends, with
    /// [`TripleAction::Ready`] or [`TripleAction::Pending`], the outcome of
    /// each call asked for is the next event.
    pub fn poll<E>(&mut self, event: TripleEvent<T1, T2, T3, E>) -> (action: TripleAction<
        T1,
        T2,
        T3,
        E,
    >)
        requires
            old(self)@.accepts(event),
        ensures
            (final(self)@, action) == old(self)@.next(event),
    {
        let mut stage = TripleStage::Finished;
        core::mem::swap(&mut self.stage, &mut stage);
        match (stage, event) {
            (TripleStage::Resting(state), TripleEvent::Start) => self.start(state),
            (TripleStage::Submitting, TripleEvent::Submission(Ok((key1, key2, key3)))) => {
                self.stage = TripleStage::PollingFirst {
                    second: PushEntry::Pending(key2),
                    third: PushEntry::Pending(key3),
                };
                TripleAction::PollFirst { key1 }
            },
            (TripleStage::Submitting, TripleEvent::Submission(Err(error))) => {
                TripleAction::Ready(Err(error))
            },
            (TripleStage::PollingFirst { second, third }, TripleEvent::First(first)) => {
                match second {
                    PushEntry::Pending(key2) => {
                        self.stage = TripleStage::PollingSecond { first, third };
                        TripleAction::PollSecond { key2 }
                    },
                    PushEntry::Ready(r2) => self.go_on(first, PushEntry::Ready(r2), third),
                }
            },
            (TripleStage::PollingSecond { first, third }, TripleEvent::Second(second)) => {
                self.go_on(first, second, third)
            },
            (TripleStage::PollingThird { first, second }, TripleEvent::Third(third)) => {
                self.finish(first, second, third)
            },
            _ => unreached(),
        }
    }

    /// Makes the first call of a poll.
    fn start<E>(&mut self, state: TripleState<T1, T2, T3>) -> (action: TripleAction<T1, T2, T3, E>)
        ensures
            (final(self)@, action) == state.phase().next(TripleEvent::<T1, T2, T3, E>::Start),
    {
        match state {
            TripleState::Idle { op1, op2, op3 } => {
                self.stage = TripleStage::Submitting;
                TripleAction::Submit { op1, op2, op3 }
            },
            TripleState::Submitted { key1, key2, key3 } => {
                self.stage = TripleStage::PollingFirst {
                    second: PushEntry::Pending(key2),
                    third: PushEntry::Pending(key3),
                };
                TripleAction::PollFirst { key1 }
            },
            TripleState::Done1 { r1, key2, key3 } => {
                self.stage = TripleStage::PollingSecond {
                    first: PushEntry::Ready(r1),
                    third: PushEntry::Pending(key3),
                };
                TripleAction::PollSecond { key2 }
            },
            TripleState::Done2 { key1, r2, key3 } => {
                self.stage = TripleStage::PollingFirst {
                    second: PushEntry::Ready(r2),
                    third: PushEntry::Pending(key3),
                };
                TripleAction::PollFirst { key1 }
            },
            TripleState::Done3 { key1, key2, r3 } => {
                self.stage = TripleStage::PollingFirst {
                    second: PushEntry::Pending(key2),
                    third: PushEntry::Ready(r3),
                };
                TripleAction::PollFirst { key1 }
            },
            TripleState::Done12 { r1, r2, key3 } => {
                self.stage = TripleStage::PollingThird {
                    first: PushEntry::Ready(r1),
                    second: PushEntry::Ready(r2),
                };
                TripleAction::PollThird { key3 }
            },
            TripleState::Done13 { r1, key2, r3 } => {
                self.stage = TripleStage::PollingSecond {
                    first: PushEntry::Ready(r1),
                    third: PushEntry::Ready(r3),
                };
                TripleAction::PollSecond { key2 }
            },
            TripleState::Done23 { key1, r2, r3 } => {
                self.stage = TripleStage::PollingFirst {
                    second: PushEntry::Ready(r2),
                    third: PushEntry::Ready(r3),
                };
                TripleAction::PollFirst { key1 }
            },
        }
    }

    /// Goes on with a poll once nothing is left to ask about the first two
    /// operations.
    fn go_on<E>(
        &mut self,
        first: PushEntry<T1::Key, T1::Output>,
        second: PushEntry<T2::Key, T2::Output>,
        third: PushEntry<T3::Key, T3::Output>,
    ) -> (action: TripleAction<T1, T2, T3, E>)
        requires
            old(self)@ is Finished,
        ensures
            (final(self)@, action) == TriplePhase::<T1, T2, T3>::ask_third::<E>(
                first,
                second,
                third,
            ),
    {
        match third {
            PushEntry::Pending(key3) => {
                self.stage = TripleStage::PollingThird { first, second };
                TripleAction::PollThird { key3 }
            },
            PushEntry::Ready(r3) => self.finish(first, second, PushEntry::Ready(r3)),
        }
    }

    /// Ends a poll.
    fn finish<E>(
        &mut self,
        first: PushEntry<T1::Key, T1::Output>,
        second: PushEntry<T2::Key, T2::Output>,
        third: PushEntry<T3::Key, T3::Output>,
    ) -> (action: TripleAction<T1, T2, T3, E>)
        requires
            old(self)@ is Finished,
        ensures
            (final(self)@, action) == TriplePhase::<T1, T2, T3>::settle::<E>(first, second, third),
    {
        let state = match (first, second, third) {
            (PushEntry::Ready(r1), PushEntry::Ready(r2), PushEntry::Ready(r3)) => {
                return TripleAction::Ready(Ok((r1, r2, r3)));
            },
            (PushEntry::Ready(r1), PushEntry::Ready(r2), PushEntry::Pending(key3)) => {
                TripleState::Done12 { r1, r2, key3 }
            },
            (PushEntry::Ready(r1), PushEntry::Pending(key2), PushEntry::Ready(r3)) => {
                TripleState::Done13 { r1, key2, r3 }
            },
            (PushEntry::Ready(r1), PushEntry::Pending(key2), PushEntry::Pending(key3)) => {
                TripleState::Done1 { r1, key2, key3 }
            },
            (PushEntry::Pending(key1), PushEntry::Ready(r2), PushEntry::Ready(r3)) => {
                TripleState::Done23 { key1, r2, r3 }
            },
            (PushEntry::Pending(key1), PushEntry::Ready(r2), PushEntry::Pending(key3)) => {
                TripleState::Done2 { key1, r2, key3 }
            },
            (PushEntry::Pending(key1), PushEntry::Pending(key2), PushEntry::Ready(r3)) => {
                TripleState::Done3 { key1, key2, r3 }
            },
            (PushEntry::Pending(key1), PushEntry::Pending(key2), PushEntry::Pending(key3)) => {
                TripleState::Submitted { key1, key2, key3 }
            },
        };
        self.stage = TripleStage::Resting(state);
        TripleAction::Pending
    }

    /// Gives the future up: returns the keys of the operations in flight, each
    /// of which is to be cancelled, in the order of the operations.
    ///
    /// There are none while a poll is under way: a poll that does not run to
    /// its end leaves nothing to cancel.
    pub fn cancel(&mut self) -> (keys: (Option<T1::Key>, Option<T2::Key>, Option<T3::Key>))
        ensures
            keys == old(self)@.outstanding(),
            final(self)@ is Finished,
    {
        let mut stage = TripleStage::Finished;
        core::mem::swap(&mut self.stage, &mut stage);
        match stage {
            TripleStage::Resting(state) => cancel_triple_keys(state),
            _ => (None, None, None),
        }
    }
}

} // verus!

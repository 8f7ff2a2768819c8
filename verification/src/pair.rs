//! The future of a chain of two linked operations.

use crate::operation::{Operation, PushEntry};
use vstd::pervasive::unreached;
use vstd::prelude::*;

verus! {

/// What a pair is told.
pub enum PairEvent<T1: Operation, T2: Operation, E> {
    /// The future is being polled.
    Start,
    /// What came of submitting the chain: the keys of its operations, or the
    /// error that kept the chain from being submitted.
    Submission(Result<(T1::Key, T2::Key), E>),
    /// What the runtime says of the first operation.
    First(PushEntry<T1::Key, T1::Output>),
    /// What the runtime says of the second operation.
    Second(PushEntry<T2::Key, T2::Output>),
}

/// What a pair asks for.
pub enum PairAction<T1: Operation, T2: Operation, E> {
    /// Submit the two operations as a linked chain, then report
    /// [`PairEvent::Submission`].
    Submit { op1: T1, op2: T2 },
    /// Ask the runtime about the first operation, then report
    /// [`PairEvent::First`].
    PollFirst { key1: T1::Key },
    /// Ask the runtime about the second operation, then report
    /// [`PairEvent::Second`].
    PollSecond { key2: T2::Key },
    /// Return from the poll: the future is ready with this output.
    Ready(Result<(T1::Output, T2::Output), E>),
    /// Return from the poll: the future is still pending.
    Pending,
}

/// The abstract state of a pair.
pub enum PairPhase<T1: Operation, T2: Operation> {
    /// Nothing has been submitted.
    Idle { op1: T1, op2: T2 },
    /// The chain has been submitted, no poll is under way, and this is the
    /// latest word on each of the operations.
    InFlight {
        first: PushEntry<T1::Key, T1::Output>,
        second: PushEntry<T2::Key, T2::Output>,
    },
    /// The operations are with the runtime, which is submitting them.
    Submitting,
    /// The first key is with the runtime, which is asked about it.
    PollingFirst { second: PushEntry<T2::Key, T2::Output> },
    /// The second key is with the runtime, which is asked about it.
    PollingSecond { first: PushEntry<T1::Key, T1::Output> },
    /// The future holds neither operations nor keys.
    Finished,
}

impl<T1: Operation, T2: Operation> PairPhase<T1, T2> {
    /// Whether a future can be in this phase: a chain rests in flight only as
    /// long as one of its operations is.
    pub open spec fn well_formed(self) -> bool {
        self matches PairPhase::InFlight { first, second } ==> first is Pending || second is Pending
    }

    /// Whether `event` can come in this phase.
    pub open spec fn accepts<E>(self, event: PairEvent<T1, T2, E>) -> bool {
        match event {
            PairEvent::Start => self is Idle || self is InFlight,
            PairEvent::Submission(_) => self is Submitting,
            PairEvent::First(_) => self is PollingFirst,
            PairEvent::Second(_) => self is PollingSecond,
        }
    }

    /// How a poll ends once there is nothing left to ask: it resolves if both
    /// operations have completed, else it keeps what is known of them.
    pub open spec fn settle<E>(
        first: PushEntry<T1::Key, T1::Output>,
        second: PushEntry<T2::Key, T2::Output>,
    ) -> (Self, PairAction<T1, T2, E>) {
        match (first, second) {
            (PushEntry::Ready(result1), PushEntry::Ready(result2)) => (
                PairPhase::Finished,
                PairAction::Ready(Ok((result1, result2))),
            ),
            _ => (PairPhase::InFlight { first, second }, PairAction::Pending),
        }
    }

    /// How a poll goes on after the first operation: the second is asked
    /// about if it is in flight.
    pub open spec fn ask_second<E>(
        first: PushEntry<T1::Key, T1::Output>,
        second: PushEntry<T2::Key, T2::Output>,
    ) -> (Self, PairAction<T1, T2, E>) {
        match second {
            PushEntry::Pending(key2) => (
                PairPhase::PollingSecond { first },
                PairAction::PollSecond { key2 },
            ),
            PushEntry::Ready(_) => Self::settle(first, second),
        }
    }

    /// How a poll of a submitted chain begins: the first operation is asked
    /// about if it is in flight.
    pub open spec fn ask_first<E>(
        first: PushEntry<T1::Key, T1::Output>,
        second: PushEntry<T2::Key, T2::Output>,
    ) -> (Self, PairAction<T1, T2, E>) {
        match first {
            PushEntry::Pending(key1) => (
                PairPhase::PollingFirst { second },
                PairAction::PollFirst { key1 },
            ),
            PushEntry::Ready(_) => Self::ask_second(first, second),
        }
    }

    /// The phase that follows an event, and what is asked for then.
    pub open spec fn next<E>(self, event: PairEvent<T1, T2, E>) -> (Self, PairAction<T1, T2, E>)
        recommends
            self.accepts(event),
    {
        match (self, event) {
            (PairPhase::Idle { op1, op2 }, PairEvent::Start) => (
                PairPhase::Submitting,
                PairAction::Submit { op1, op2 },
            ),
            (PairPhase::InFlight { first, second }, PairEvent::Start) => Self::ask_first(
                first,
                second,
            ),
            (PairPhase::Submitting, PairEvent::Submission(Ok((key1, key2)))) => Self::ask_first(
                PushEntry::Pending(key1),
                PushEntry::Pending(key2),
            ),
            (PairPhase::Submitting, PairEvent::Submission(Err(error))) => (
                PairPhase::Finished,
                PairAction::Ready(Err(error)),
            ),
            (PairPhase::PollingFirst { second }, PairEvent::First(entry)) => Self::ask_second(
                entry,
                second,
            ),
            (PairPhase::PollingSecond { first }, PairEvent::Second(entry)) => Self::settle(
                first,
                entry,
            ),
            _ => arbitrary(),
        }
    }

    /// The keys of the operations that are in flight between two polls.
    pub open spec fn outstanding(self) -> (Option<T1::Key>, Option<T2::Key>) {
        match self {
            PairPhase::InFlight { first, second } => (first.key(), second.key()),
            _ => (None, None),
        }
    }
}

/// What a pair holds between two polls.
enum LinkedState<T1: Operation, T2: Operation> {
    /// Both operations are ready to be submitted.
    Idle { op1: T1, op2: T2 },
    /// Both operations are in flight.
    Submitted { key1: T1::Key, key2: T2::Key },
    /// The first operation has completed, the second has not.
    FirstDone { result1: T1::Output, key2: T2::Key },
    /// The second operation has completed, the first has not.
    SecondDone { key1: T1::Key, result2: T2::Output },
}

/// What a pair holds.
enum PairStage<T1: Operation, T2: Operation> {
    Resting(LinkedState<T1, T2>),
    Submitting,
    PollingFirst { second: PushEntry<T2::Key, T2::Output> },
    PollingSecond { first: PushEntry<T1::Key, T1::Output> },
    Finished,
}

impl<T1: Operation, T2: Operation> PairStage<T1, T2> {
    spec fn phase(self) -> PairPhase<T1, T2> {
        match self {
            PairStage::Resting(LinkedState::Idle { op1, op2 }) => PairPhase::Idle { op1, op2 },
            PairStage::Resting(LinkedState::Submitted { key1, key2 }) => PairPhase::InFlight {
                first: PushEntry::Pending(key1),
                second: PushEntry::Pending(key2),
            },
            PairStage::Resting(LinkedState::FirstDone { result1, key2 }) => PairPhase::InFlight {
                first: PushEntry::Ready(result1),
                second: PushEntry::Pending(key2),
            },
            PairStage::Resting(LinkedState::SecondDone { key1, result2 }) => PairPhase::InFlight {
                first: PushEntry::Pending(key1),
                second: PushEntry::Ready(result2),
            },
            PairStage::Submitting => PairPhase::Submitting,
            PairStage::PollingFirst { second } => PairPhase::PollingFirst { second },
            PairStage::PollingSecond { first } => PairPhase::PollingSecond { first },
            PairStage::Finished => PairPhase::Finished,
        }
    }
}

/// The future that submits two operations as a linked chain.
///
/// The kernel executes the second operation only after the first completes
/// successfully. If the first fails, the second is cancelled.
///
/// Resolves when **both** operations have completed, or with the error of the
/// submission if the chain could not be submitted.
pub struct SubmitLinkedPair<T1: Operation, T2: Operation> {
    stage: PairStage<T1, T2>,
}

impl<T1: Operation, T2: Operation> View for SubmitLinkedPair<T1, T2> {
    type V = PairPhase<T1, T2>;

    closed spec fn view(&self) -> PairPhase<T1, T2> {
        self.stage.phase()
    }
}

impl<T1: Operation, T2: Operation> SubmitLinkedPair<T1, T2> {
    /// A pair is in a well-formed phase at every moment.
    pub proof fn is_well_formed(self)
        ensures
            self@.well_formed(),
    {
    }

    /// A pair of operations that are yet to be submitted.
    pub fn new(op1: T1, op2: T2) -> (pair: Self)
        ensures
            pair@ == (PairPhase::Idle { op1, op2 }),
    {
        SubmitLinkedPair { stage: PairStage::Resting(LinkedState::Idle { op1, op2 }) }
    }

    /// Whether `poll` can be told `event` now.
    ///
    /// A future that has returned its output accepts nothing more.
    pub fn accepts<E>(&self, event: &PairEvent<T1, T2, E>) -> (accepted: bool)
        ensures
            accepted == self@.accepts(*event),
    {
        match (&self.stage, event) {
            (PairStage::Resting(_), PairEvent::Start) => true,
            (PairStage::Submitting, PairEvent::Submission(_)) => true,
            (PairStage::PollingFirst { .. }, PairEvent::First(_)) => true,
            (PairStage::PollingSecond { .. }, PairEvent::Second(_)) => true,
            _ => false,
        }
    }

    /// Runs a poll of the future up to its next call into the runtime, or up
    /// to its end.
    ///
    /// A poll begins with [`PairEvent::Start`]. Until it ends, with
    /// [`PairAction::Ready`] or [`PairAction::Pending`], the outcome of each
    /// call asked for is the next event.
    pub fn poll<E>(&mut self, event: PairEvent<T1, T2, E>) -> (action: PairAction<T1, T2, E>)
        requires
            old(self)@.accepts(event),
        ensures
            (final(self)@, action) == old(self)@.next(event),
    {
        let mut stage = PairStage::Finished;
        core::mem::swap(&mut self.stage, &mut stage);
        match (stage, event) {
            (PairStage::Resting(state), PairEvent::Start) => self.start(state),
            (PairStage::Submitting, PairEvent::Submission(Ok((key1, key2)))) => {
                self.stage = PairStage::PollingFirst { second: PushEntry::Pending(key2) };
                PairAction::PollFirst { key1 }
            },
            (PairStage::Submitting, PairEvent::Submission(Err(error))) => {
                PairAction::Ready(Err(error))
            },
            (PairStage::PollingFirst { second }, PairEvent::First(first)) => {
                match second {
                    PushEntry::Pending(key2) => {
                        self.stage = PairStage::PollingSecond { first };
                        PairAction::PollSecond { key2 }
                    },
                    PushEntry::Ready(result2) => self.finish(first, PushEntry::Ready(result2)),
                }
            },
            (PairStage::PollingSecond { first }, PairEvent::Second(second)) => {
                self.finish(first, second)
            },
            _ => unreached(),
        }
    }

    /// Makes the first call of a poll.
    fn start<E>(&mut self, state: LinkedState<T1, T2>) -> (action: PairAction<T1, T2, E>)
        ensures
            (final(self)@, action) == PairStage::Resting(state).phase().next(
                PairEvent::<T1, T2, E>::Start,
            ),
    {
        match state {
            LinkedState::Idle { op1, op2 } => {
                self.stage = PairStage::Submitting;
                PairAction::Submit { op1, op2 }
            },
            LinkedState::Submitted { key1, key2 } => {
                self.stage = PairStage::PollingFirst { second: PushEntry::Pending(key2) };
                PairAction::PollFirst { key1 }
            },
            LinkedState::FirstDone { result1, key2 } => {
                self.stage = PairStage::PollingSecond { first: PushEntry::Ready(result1) };
                PairAction::PollSecond { key2 }
            },
            LinkedState::SecondDone { key1, result2 } => {
                self.stage = PairStage::PollingFirst { second: PushEntry::Ready(result2) };
                PairAction::PollFirst { key1 }
            },
        }
    }

    /// Ends a poll.
    fn finish<E>(
        &mut self,
        first: PushEntry<T1::Key, T1::Output>,
        second: PushEntry<T2::Key, T2::Output>,
    ) -> (action: PairAction<T1, T2, E>)
        requires
            old(self)@ is Finished,
        ensures
            (final(self)@, action) == PairPhase::<T1, T2>::settle::<E>(first, second),
    {
        match (first, second) {
            (PushEntry::Ready(result1), PushEntry::Ready(result2)) => {
                PairAction::Ready(Ok((result1, result2)))
            },
            (PushEntry::Ready(result1), PushEntry::Pending(key2)) => {
                self.stage = PairStage::Resting(LinkedState::FirstDone { result1, key2 });
                PairAction::Pending
            },
            (PushEntry::Pending(key1), PushEntry::Ready(result2)) => {
                self.stage = PairStage::Resting(LinkedState::SecondDone { key1, result2 });
                PairAction::Pending
            },
            (PushEntry::Pending(key1), PushEntry::Pending(key2)) => {
                self.stage = PairStage::Resting(LinkedState::Submitted { key1, key2 });
                PairAction::Pending
            },
        }
    }

    /// Gives the future up: returns the keys of the operations in flight, each
    /// of which is to be cancelled, the first before the second.
    ///
    /// There are none while a poll is under way: a poll that does not run to
    /// its end leaves nothing to cancel.
    pub fn cancel(&mut self) -> (keys: (Option<T1::Key>, Option<T2::Key>))
        ensures
            keys == old(self)@.outstanding(),
            final(self)@ is Finished,
    {
        let mut stage = PairStage::Finished;
        core::mem::swap(&mut self.stage, &mut stage);
        match stage {
            PairStage::Resting(LinkedState::Submitted { key1, key2 }) => (Some(key1), Some(key2)),
            PairStage::Resting(LinkedState::FirstDone { key2, .. }) => (None, Some(key2)),
            PairStage::Resting(LinkedState::SecondDone { key1, .. }) => (Some(key1), None),
            _ => (None, None),
        }
    }
}

} // verus!

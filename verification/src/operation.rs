//! What a chain needs to know about its operations.

use vstd::prelude::*;

verus! {

/// An operation that can be a link of a chain.
pub trait Operation: Sized {
    /// The handle by which the runtime knows the operation while it is in
    /// flight.
    type Key;

    /// What the runtime hands out once the operation has completed.
    type Output;
}

/// What the runtime says of one operation when it is asked.
pub enum PushEntry<K, R> {
    /// The operation is in flight, and known by this key from now on.
    Pending(K),
    /// The operation has completed.
    Ready(R),
}

impl<K, R> PushEntry<K, R> {
    /// The key of an operation in flight.
    pub open spec fn key(self) -> Option<K> {
        match self {
            PushEntry::Pending(key) => Some(key),
            PushEntry::Ready(_) => None,
        }
    }

    /// The key in the latest word on an operation, if there is one and the
    /// operation is in flight.
    pub open spec fn latest_key(word: Option<Self>) -> Option<K> {
        match word {
            Some(entry) => entry.key(),
            None => None,
        }
    }

    /// How many calls into the runtime a poll makes for an operation: one if
    /// it is in flight, none once it has completed.
    pub open spec fn calls(self) -> nat {
        match self {
            PushEntry::Pending(_) => 1,
            PushEntry::Ready(_) => 0,
        }
    }

    /// What is known of an operation after a poll in which the runtime says
    /// `reply` of it if it is asked: an operation in flight is asked about,
    /// one that has completed is not.
    pub open spec fn advance(self, reply: Self) -> Self {
        match self {
            PushEntry::Pending(_) => reply,
            PushEntry::Ready(_) => self,
        }
    }
}

} // verus!

//! Detection of gaps in the feed's numbering.

use vstd::prelude::*;

verus! {

/// Remembers the number of the last message applied, if any.
pub struct SequenceGuard {
    last_change_id: Option<u64>,
}

impl View for SequenceGuard {
    type V = Option<u64>;

    /// The number of the last message applied, `None` while no snapshot has
    /// been taken since the start or since the last gap.
    closed spec fn view(&self) -> Option<u64> {
        self.last_change_id
    }
}

impl SequenceGuard {
    /// A guard that has seen nothing yet.
    pub fn new() -> (guard: Self)
        ensures
            guard@ is None,
    {
        SequenceGuard { last_change_id: None }
    }

    /// The number of the last message applied.
    pub fn last_change_id(&self) -> (last: Option<u64>)
        ensures
            last == self@,
    {
        self.last_change_id
    }

    /// Whether a change that names `prev_change_id` as its predecessor follows
    /// the last message applied. Nothing follows an uninitialized guard.
    pub fn accepts(&self, prev_change_id: u64) -> (follows: bool)
        ensures
            follows == (self@ == Some(prev_change_id)),
    {
        match self.last_change_id {
            Some(last) => last == prev_change_id,
            None => false,
        }
    }

    /// Records that the message numbered `change_id` has been applied.
    pub fn advance(&mut self, change_id: u64)
        ensures
            final(self)@ == Some(change_id),
    {
        self.last_change_id = Some(change_id);
    }

    /// Forgets the last message: a gap was found and a snapshot is awaited.
    pub fn reset(&mut self)
        ensures
            final(self)@ is None,
    {
        self.last_change_id = None;
    }
}

} // verus!

//! The two one-slot queues that carry a decision from one tick to the next:
//! the requested turn and the owed growth.

use vstd::prelude::*;
use crate::direction::Direction;

verus! {

/// The turn requested since the last tick, if any. A new request overwrites
/// the one before it; a tick empties the slot whatever it does with it.
#[derive(Clone, Copy, Debug)]
pub struct NextDirection(pub Option<Direction>);

impl NextDirection {
    /// Records `direction` as the pending request; an earlier one is lost.
    pub fn enqueue(&mut self, direction: Direction)
        ensures
            final(self).0 == Some(direction),
    {
        self.0 = Some(direction);
    }

    /// Hands out the pending request and leaves the slot empty.
    pub fn take(&mut self) -> (pending: Option<Direction>)
        ensures
            pending == old(self).0,
            final(self).0 is None,
    {
        let pending = self.0;
        self.0 = None;
        pending
    }
}

impl Default for NextDirection {
    fn default() -> (queue: Self)
        ensures
            queue.0 is None,
    {
        NextDirection(None)
    }
}

/// Whether the chain owes one segment of growth to the next movement step.
#[derive(Clone, Copy, Debug)]
pub struct Growth(pub bool);

impl Growth {
    /// Stores `value` and hands out what was stored before.
    pub fn replace(&mut self, value: bool) -> (ret: bool)
        ensures
            ret == old(self).0,
            final(self).0 == value,
    {
        let ret = self.0;
        self.0 = value;
        ret
    }
}

impl Default for Growth {
    fn default() -> (flag: Self)
        ensures
            !flag.0,
    {
        Growth(false)
    }
}

} // verus!

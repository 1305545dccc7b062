//! The lock that keeps a second trade out while one is in flight.

use vstd::prelude::*;
use crate::types::TradeError;

verus! {

/// A flag that is set for as long as one trade is in flight.
#[derive(Clone, Copy, Debug, PartialEq, Eq)]
pub struct ReentrancyGuard {
    locked: bool,
}

impl ReentrancyGuard {
    /// Whether the guard is held.
    pub closed spec fn held(&self) -> bool {
        self.locked
    }

    /// A guard in the given state.
    pub fn new(locked: bool) -> (guard: ReentrancyGuard)
        ensures
            guard.held() == locked,
    {
        ReentrancyGuard { locked }
    }

    /// Whether the guard is held.
    pub fn is_held(&self) -> (held: bool)
        ensures
            held == self.held(),
    {
        self.locked
    }

    /// Takes the guard, or fails with `ReentrancyError` and leaves it as it
    /// is when it is already held.
    pub fn acquire(&mut self) -> (taken: Result<(), TradeError>)
        ensures
            final(self).held(),
            old(self).held() ==> taken == Err::<(), TradeError>(TradeError::ReentrancyError),
            !old(self).held() ==> taken == Ok::<(), TradeError>(()),
    {
        if self.locked {
            Err(TradeError::ReentrancyError)
        } else {
            self.locked = true;
            Ok(())
        }
    }

    /// Lets the guard go, held or not.
    pub fn release(&mut self)
        ensures
            !final(self).held(),
    {
        self.locked = false;
    }
}

} // verus!

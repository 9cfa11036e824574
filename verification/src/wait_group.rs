//! A reusable counting barrier.
//!
//! A `WaitGroup` carries a counter that starts at zero and never goes
//! negative. Holders raise it with [`WaitGroup::add`] before handing out
//! work and lower it with [`WaitGroup::done`] as each piece finishes;
//! [`WaitGroup::wait`] returns exactly when the counter stands at zero.
//! Driving the counter below zero means the add/done protocol was violated
//! by the caller, and is ruled out up front rather than absorbed.

use vstd::prelude::*;

verus! {

/// A counter with wait-for-zero semantics.
///
/// The counter may be raised again after reaching zero: the barrier is
/// reusable, which lets one barrier gate several rounds of work.
#[derive(Debug)]
pub struct WaitGroup {
    count: i32,
}

impl WaitGroup {
    /// The current value of the counter.
    pub closed spec fn count(self) -> int {
        self.count as int
    }

    /// The counter never goes negative.
    #[verifier::type_invariant]
    spec fn counter_in_range(self) -> bool {
        self.count >= 0
    }

    /// Create a new wait group, with the counter at zero.
    pub fn new() -> (wg: WaitGroup)
        ensures
            wg.count() == 0,
    {
        WaitGroup { count: 0 }
    }

    /// Adjust the counter by `delta` (which may be negative).
    ///
    /// A result below zero would mean too many `done` calls — a protocol
    /// violation on the caller's side, not a recoverable condition — so the
    /// precondition excludes it, together with overflow of the counter.
    pub fn add(&mut self, delta: i32)
        requires
            0 <= old(self).count() + delta <= i32::MAX,
        ensures
            final(self).count() == old(self).count() + delta,
    {
        self.count = self.count + delta;
    }

    /// Mark one piece of work as finished; equivalent to `add(-1)`.
    pub fn done(&mut self)
        requires
            old(self).count() >= 1,
        ensures
            final(self).count() == old(self).count() - 1,
    {
        self.add(-1);
    }

    /// Return once the counter stands at zero.
    ///
    /// A single owner drives this machine, so a wait on a positive counter
    /// would suspend with nobody left to lower it; the precondition demands
    /// that the counter already be zero, and the call then returns at once —
    /// exactly what a waiter arriving at an open barrier observes.
    pub fn wait(&self)
        requires
            self.count() == 0,
    {
    }
}

} // verus!

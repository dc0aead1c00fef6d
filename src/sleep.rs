//! Deadlines for busy-waiting: a wait starts at one reading of the clock and
//! is over at the first later reading that has reached its deadline.
use crate::clock::ElapsedTime;
use vstd::prelude::*;

verus! {

/// The instant, in microseconds, at which a wait of `wait` that started at
/// `start` is over.
pub open spec fn deadline_for(start: ElapsedTime, wait: ElapsedTime) -> nat {
    start.micros as nat + wait.micros as nat
}

/// Whether the clock reading `now` has reached `deadline`.
pub open spec fn reached(deadline: nat, now: ElapsedTime) -> bool {
    now.micros >= deadline
}

/// A wait in progress, known by its deadline in microseconds. The deadline is
/// held in 128 bits, so that the sum of any start and any wait fits.
#[derive(Clone, Copy, Debug, PartialEq, Eq, Structural)]
pub struct SpinSleep {
    pub deadline: u128,
}

impl SpinSleep {
    /// Starts a wait of `wait` at the clock reading `start`.
    pub fn start(start: ElapsedTime, wait: ElapsedTime) -> (r: SpinSleep)
        ensures
            r.deadline == deadline_for(start, wait),
    {
        SpinSleep { deadline: start.micros as u128 + wait.micros as u128 }
    }

    /// Whether the wait is over at the clock reading `now`: the polling loop
    /// goes on while this is `false` and stops at the first `true`.
    pub fn is_over(&self, now: ElapsedTime) -> (r: bool)
        ensures
            r == reached(self.deadline as nat, now),
    {
        now.micros as u128 >= self.deadline
    }
}

/// A wait never ends early: at any reading at which a wait of `wait` started
/// at `start` is over, at least `wait` has passed since `start`.
pub proof fn lemma_wait_lower_bound(start: ElapsedTime, wait: ElapsedTime, now: ElapsedTime)
    requires
        reached(deadline_for(start, wait), now),
    ensures
        now.micros - start.micros >= wait.micros,
{
}

/// A wait never ends late either: at a reading at which it is not yet over,
/// less than `wait` has passed since `start`, so the loop stops at the first
/// reading after the deadline.
pub proof fn lemma_wait_not_over_before_deadline(
    start: ElapsedTime,
    wait: ElapsedTime,
    now: ElapsedTime,
)
    requires
        !reached(deadline_for(start, wait), now),
    ensures
        now.micros - start.micros < wait.micros,
{
}

/// A wait of zero is over at the first reading that is not earlier than its
/// start, so with a clock that never goes backwards it polls once.
pub proof fn lemma_zero_wait_over_at_once(start: ElapsedTime, now: ElapsedTime)
    requires
        now.micros >= start.micros,
    ensures
        reached(deadline_for(start, (ElapsedTime { micros: 0 })), now),
{
}

} // verus!

//! The frame scheduler: when is the next tick of the simulation due.
use vstd::prelude::*;
use crate::clock::{clamp_millis, clamped};

verus! {

/// Decides when ticks happen. Times are milliseconds on a clock of the
/// caller's choosing; a tick is due when `frame_delay` milliseconds have
/// passed since the last tick.
#[derive(Clone, Copy, Debug, PartialEq, Eq, Structural)]
pub struct Scheduler {
    /// Milliseconds between two ticks.
    pub frame_delay: u64,
    /// Time of the last tick.
    pub last_ms: u64,
}

impl Scheduler {
    /// The time from which the next tick is due.
    pub open spec fn deadline(self) -> nat {
        (self.last_ms + self.frame_delay) as nat
    }

    /// At `now_ms` the next tick is due.
    pub open spec fn due(self, now_ms: u64) -> bool {
        now_ms >= self.deadline()
    }

    /// Milliseconds from `now_ms` to the deadline; zero once it has passed.
    pub open spec fn remaining(self, now_ms: u64) -> nat {
        if self.due(now_ms) {
            0
        } else {
            (self.deadline() - now_ms) as nat
        }
    }

    /// A scheduler that counts from `now_ms`: the first tick is due one frame
    /// delay later.
    pub fn new(frame_delay: u64, now_ms: u64) -> (scheduler: Scheduler)
        ensures
            scheduler == (Scheduler { frame_delay, last_ms: now_ms }),
    {
        Scheduler { frame_delay, last_ms: now_ms }
    }

    /// Whether the next tick is due at `now_ms`.
    pub fn is_due(&self, now_ms: u64) -> (due: bool)
        ensures
            due == self.due(now_ms),
    {
        now_ms as u128 >= self.last_ms as u128 + self.frame_delay as u128
    }

    /// How long to wait at `now_ms` until the next tick is due, in
    /// milliseconds: the time that remains, held at `u64::MAX`.
    pub fn wait_ms(&self, now_ms: u64) -> (ms: u64)
        ensures
            ms == clamped(self.remaining(now_ms) as u128),
            now_ms >= self.last_ms ==> ms == self.remaining(now_ms) && ms <= self.frame_delay,
    {
        let deadline: u128 = self.last_ms as u128 + self.frame_delay as u128;
        if now_ms as u128 >= deadline {
            0
        } else {
            clamp_millis(deadline - now_ms as u128)
        }
    }

    /// Asks for a tick at `now_ms`. Where one is due the scheduler says so and
    /// counts anew from `now_ms`; otherwise it stays as it is.
    pub fn poll(&mut self, now_ms: u64) -> (fired: bool)
        ensures
            fired == old(self).due(now_ms),
            fired ==> *final(self) == (Scheduler { last_ms: now_ms, ..*old(self) }),
            !fired ==> *final(self) == *old(self),
    {
        if self.is_due(now_ms) {
            self.last_ms = now_ms;
            true
        } else {
            false
        }
    }

    /// Changes the frame delay; the time of the last tick stays.
    pub fn set_frame_delay(&mut self, frame_delay: u64)
        ensures
            *final(self) == (Scheduler { frame_delay, ..*old(self) }),
    {
        self.frame_delay = frame_delay;
    }
}

/// Pacing law: after a tick at `first_ms` no tick is due before a whole frame
/// delay has passed, and one is due from then on.
pub proof fn law_pacing(scheduler: Scheduler, first_ms: u64, later_ms: u64)
    requires
        scheduler.due(first_ms),
    ensures
        (Scheduler { last_ms: first_ms, ..scheduler }).due(later_ms) <==> later_ms >= first_ms
            + scheduler.frame_delay,
{
}

} // verus!

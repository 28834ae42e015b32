//! A single-shot timer of which at most one is pending: it serves to
//! repeat a query that gave nothing, and to gather a burst of signals
//! into one delayed query.

use vstd::prelude::*;

verus! {

/// Whether a timer is pending, and the interval it was armed for.
#[derive(Clone, Copy, Debug, PartialEq, Eq, Structural)]
pub struct RetryDebounceTimer {
    pub pending: bool,
    pub interval_millis: u64,
}

/// The timer after a request to arm it for `interval_millis`, and
/// whether that armed it: while one is pending, the request does nothing.
pub open spec fn scheduled(timer: RetryDebounceTimer, interval_millis: u64) -> (
    RetryDebounceTimer,
    bool,
) {
    if timer.pending {
        (timer, false)
    } else {
        (RetryDebounceTimer { pending: true, interval_millis }, true)
    }
}

/// The timer after it fired.
pub open spec fn fired(timer: RetryDebounceTimer) -> RetryDebounceTimer {
    RetryDebounceTimer { pending: false, interval_millis: timer.interval_millis }
}

impl RetryDebounceTimer {
    /// A timer that is not pending.
    pub fn new() -> (timer: RetryDebounceTimer)
        ensures
            timer == (RetryDebounceTimer { pending: false, interval_millis: 0 }),
    {
        RetryDebounceTimer { pending: false, interval_millis: 0 }
    }

    /// Arms the timer for `interval_millis` unless one is pending, and
    /// tells whether it did: the caller then starts the host's timer.
    pub fn schedule(&mut self, interval_millis: u64) -> (armed: bool)
        ensures
            (*final(self), armed) == scheduled(*old(self), interval_millis),
    {
        if self.pending {
            false
        } else {
            self.pending = true;
            self.interval_millis = interval_millis;
            true
        }
    }

    /// Takes note that the host's timer fired: none is pending any more.
    pub fn on_fire(&mut self)
        ensures
            *final(self) == fired(*old(self)),
    {
        self.pending = false;
    }
}

} // verus!

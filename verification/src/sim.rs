//! A deterministic runtime for test environments.
//!
//! [`SimRuntime`] satisfies the capability contract against a logical clock
//! that never moves on its own: the test driver advances it explicitly with
//! [`SimRuntime::advance`]. Timers created from it are plain values polled
//! against the runtime, so a test can place every tick and completion on the
//! clock exactly.

use vstd::prelude::*;

use crate::duration::Duration;
use crate::runtime::Runtime;

verus! {

/// A timestamp of the deterministic clock: a nanosecond count.
#[derive(Clone, Copy, PartialEq, Eq, Structural)]
pub struct SimInstant {
    at: u64,
}

/// A one-shot timer of the deterministic runtime.
///
/// It remembers when it was created and for how long, so its deadline is
/// their sum on the logical clock.
pub struct SimDelay {
    created: u64,
    dur: u64,
}

/// A periodic timer of the deterministic runtime.
///
/// It remembers the point its next tick is measured from — creation, or the
/// last tick emitted — so its due time is that point plus one period.
pub struct SimInterval {
    last: u64,
    period: u64,
}

/// A runtime for deterministic tests: the capability contract over a logical
/// clock that only [`SimRuntime::advance`] moves.
///
/// A spawned task is run to completion at the point of spawning, the one
/// schedule a deterministic single-threaded host can pick without holding
/// work back forever.
#[derive(Clone, Copy)]
pub struct SimRuntime {
    now_ns: u64,
}

impl SimInstant {
    /// The timestamp this instant stands for, in nanoseconds.
    pub closed spec fn timestamp(self) -> nat {
        self.at as nat
    }
}

impl SimRuntime {
    /// A fresh runtime whose clock reads zero.
    pub fn new() -> (rt: SimRuntime)
        ensures
            rt.time() == 0,
    {
        SimRuntime { now_ns: 0 }
    }

    /// Move the logical clock forward by `d`.
    pub fn advance(&mut self, d: Duration)
        requires
            old(self).time() + d@ <= u64::MAX,
        ensures
            final(self).time() == old(self).time() + d@,
    {
        self.now_ns = self.now_ns + d.as_nanos();
    }
}

impl Runtime for SimRuntime {
    type Instant = SimInstant;

    type Delay = SimDelay;

    type Interval = SimInterval;

    open spec fn instant_time(i: SimInstant) -> nat {
        i.timestamp()
    }

    closed spec fn time(&self) -> nat {
        self.now_ns as nat
    }

    closed spec fn delay_deadline(d: &SimDelay) -> nat {
        (d.created + d.dur) as nat
    }

    closed spec fn interval_period(iv: &SimInterval) -> nat {
        iv.period as nat
    }

    closed spec fn interval_due(iv: &SimInterval) -> nat {
        (iv.last + iv.period) as nat
    }

    fn spawn<F: FnOnce() -> () + Send + 'static>(&self, task: F) {
        task();
    }

    fn now(&self) -> (i: SimInstant) {
        SimInstant { at: self.now_ns }
    }

    fn elapsed(&self, instant: SimInstant) -> (d: Duration) {
        Duration::from_nanos(self.now_ns - instant.at)
    }

    fn duration_between(&self, earlier: SimInstant, later: SimInstant) -> (d: Duration) {
        Duration::from_nanos(later.at - earlier.at)
    }

    fn delay(&self, duration: Duration) -> (dl: SimDelay) {
        SimDelay { created: self.now_ns, dur: duration.as_nanos() }
    }

    fn delay_poll(&self, d: &mut SimDelay) -> (ready: bool) {
        d.created as u128 + d.dur as u128 <= self.now_ns as u128
    }

    fn interval(&self, duration: Duration) -> (iv: SimInterval) {
        SimInterval { last: self.now_ns, period: duration.as_nanos() }
    }

    fn interval_poll(&self, iv: &mut SimInterval) -> (tick: Option<SimInstant>) {
        if iv.last as u128 + iv.period as u128 <= self.now_ns as u128 {
            iv.last = self.now_ns;
            Some(SimInstant { at: self.now_ns })
        } else {
            None
        }
    }
}

} // verus!

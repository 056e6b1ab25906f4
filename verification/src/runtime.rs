//! The capability contract for host scheduling and timing environments, and
//! the adapter that lets a shared reference satisfy it.
//!
//! A [`Runtime`] is modelled against a logical clock: every implementation
//! designates, through the spec functions of the trait, a current time
//! `self.time()` in nanoseconds, a timestamp `instant_time(i)` for each of
//! its instants, a completion deadline for each of its delays, and a period
//! and next due time for each of its intervals. The executable operations
//! are specified exactly over that model.
//!
//! Suspension is expressed by explicit polling: a caller that would await a
//! [`Delay`](Runtime::Delay) or draw from an [`Interval`](Runtime::Interval)
//! polls it against the runtime, and the poll answers by the runtime's own
//! clock. How often a consumer gets to poll is the host scheduler's
//! business; the contract pins what each poll may answer, so a tick can
//! never come too early, only too late.

use vstd::prelude::*;

use crate::duration::Duration;

verus! {

/// The set of capabilities a host environment must provide: spawning
/// asynchronous work, reading a monotonic clock, and creating one-shot and
/// periodic timers.
///
/// Instants are opaque and comparable only against instants and timers of
/// the same runtime value that produced them; the spec functions of the
/// trait express that common logical clock. Implementations must be safely
/// usable from multiple concurrent callers, hence every operation takes
/// `&self`.
pub trait Runtime: Clone + Send + Sync + Sized {
    /// An opaque monotonic timestamp.
    type Instant: Copy + Send + Sync;

    /// A one-shot timer: completes once its deadline is reached, produces no
    /// value, and is cancelled by discarding it.
    type Delay: Send;

    /// A periodic timer: an unbounded source of instants spaced at least one
    /// period apart, halted by discarding it.
    type Interval: Send;

    /// The timestamp an instant of this runtime stands for, in nanoseconds
    /// of the runtime's logical clock.
    spec fn instant_time(i: Self::Instant) -> nat;

    /// The current reading of this runtime value's logical clock.
    spec fn time(&self) -> nat;

    /// The point of the logical clock at which a delay completes.
    spec fn delay_deadline(d: &Self::Delay) -> nat;

    /// The configured spacing between an interval's ticks.
    spec fn interval_period(iv: &Self::Interval) -> nat;

    /// The earliest point of the logical clock at which the interval's next
    /// tick may be emitted.
    spec fn interval_due(iv: &Self::Interval) -> nat;

    /// Schedule a self-contained unit of work for eventual execution.
    ///
    /// Non-blocking: control returns to the caller regardless of when the
    /// task actually runs, and no execution order is promised between the
    /// task, the caller's continuation, and other spawned tasks. That the
    /// task eventually runs to completion is a liveness promise of the host
    /// scheduler, outside this contract.
    fn spawn<F: FnOnce() -> () + Send + 'static>(&self, task: F)
        requires
            call_requires(task, ()),
    ;

    /// The current instant of this runtime's clock.
    fn now(&self) -> (i: Self::Instant)
        ensures
            Self::instant_time(i) == self.time(),
    ;

    /// The time elapsed from `instant` to a fresh reading of the clock.
    ///
    /// Defined only for instants this runtime produced, which by
    /// monotonicity never lie in its future.
    fn elapsed(&self, instant: Self::Instant) -> (d: Duration)
        requires
            Self::instant_time(instant) <= self.time(),
        ensures
            d@ == self.time() - Self::instant_time(instant),
    ;

    /// The duration from `earlier` to `later`.
    ///
    /// `later` preceding `earlier` is a fatal contract violation — either
    /// caller misuse or a broken monotonic clock, never a recoverable error
    /// — so the precondition excludes it and no implementation need return
    /// a value for it.
    fn duration_between(&self, earlier: Self::Instant, later: Self::Instant) -> (d: Duration)
        requires
            Self::instant_time(earlier) <= Self::instant_time(later),
        ensures
            d@ == Self::instant_time(later) - Self::instant_time(earlier),
            Self::instant_time(earlier) == Self::instant_time(later) ==> d@ == 0,
    ;

    /// A one-shot timer completing no sooner than `duration` from now.
    fn delay(&self, duration: Duration) -> (dl: Self::Delay)
        ensures
            Self::delay_deadline(&dl) == self.time() + duration@,
    ;

    /// Whether a delay of this runtime has completed.
    ///
    /// A delay completes exactly when the clock reaches its deadline, so it
    /// can never complete before the duration it was created with has
    /// elapsed. Polling does not disturb the deadline.
    fn delay_poll(&self, d: &mut Self::Delay) -> (ready: bool)
        ensures
            ready <==> Self::delay_deadline(old(d)) <= self.time(),
            Self::delay_deadline(final(d)) == Self::delay_deadline(old(d)),
    ;

    /// A periodic timer whose ticks are spaced at least `duration` apart,
    /// the first one due a full period from now.
    fn interval(&self, duration: Duration) -> (iv: Self::Interval)
        ensures
            Self::interval_period(&iv) == duration@,
            Self::interval_due(&iv) == self.time() + duration@,
    ;

    /// Draw the next tick from an interval of this runtime, if it is due.
    ///
    /// A tick is emitted exactly when the clock has reached the interval's
    /// due time; it carries an instant no earlier than that due time and no
    /// later than the clock, and pushes the next due time one full period
    /// past itself. An interval is unbounded: no poll exhausts it.
    fn interval_poll(&self, iv: &mut Self::Interval) -> (tick: Option<Self::Instant>)
        ensures
            Self::interval_period(final(iv)) == Self::interval_period(old(iv)),
            tick is Some <==> Self::interval_due(old(iv)) <= self.time(),
            match tick {
                Some(i) => {
                    &&& Self::interval_due(old(iv)) <= Self::instant_time(i)
                    &&& Self::instant_time(i) <= self.time()
                    &&& Self::interval_due(final(iv)) == Self::instant_time(i) + Self::interval_period(
                        old(iv),
                    )
                },
                None => Self::interval_due(final(iv)) == Self::interval_due(old(iv)),
            },
    ;
}

/// The shared-reference adapter: a shared reference to a runtime is itself a
/// runtime, forwarding every operation to the referenced value and reusing
/// its instant, delay and interval types unchanged.
///
/// The spec functions of the adapter are those of the underlying runtime,
/// so calling through the adapter is behaviorally indistinguishable from
/// calling the underlying implementation directly.
impl<'a, R: Runtime + 'a> Runtime for &'a R {
    type Instant = R::Instant;

    type Delay = R::Delay;

    type Interval = R::Interval;

    open spec fn instant_time(i: R::Instant) -> nat {
        R::instant_time(i)
    }

    open spec fn time(&self) -> nat {
        (**self).time()
    }

    open spec fn delay_deadline(d: &R::Delay) -> nat {
        R::delay_deadline(d)
    }

    open spec fn interval_period(iv: &R::Interval) -> nat {
        R::interval_period(iv)
    }

    open spec fn interval_due(iv: &R::Interval) -> nat {
        R::interval_due(iv)
    }

    fn spawn<F: FnOnce() -> () + Send + 'static>(&self, task: F) {
        (**self).spawn(task)
    }

    fn now(&self) -> (i: R::Instant) {
        (**self).now()
    }

    fn elapsed(&self, instant: R::Instant) -> (d: Duration) {
        (**self).elapsed(instant)
    }

    fn duration_between(&self, earlier: R::Instant, later: R::Instant) -> (d: Duration) {
        (**self).duration_between(earlier, later)
    }

    fn delay(&self, duration: Duration) -> (dl: R::Delay) {
        (**self).delay(duration)
    }

    fn delay_poll(&self, d: &mut R::Delay) -> (ready: bool) {
        (**self).delay_poll(d)
    }

    fn interval(&self, duration: Duration) -> (iv: R::Interval) {
        (**self).interval(duration)
    }

    fn interval_poll(&self, iv: &mut R::Interval) -> (tick: Option<R::Instant>) {
        (**self).interval_poll(iv)
    }
}

} // verus!

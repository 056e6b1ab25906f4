//! Laws of the capability contract.
//!
//! Each lemma here states a property that holds of every implementation of
//! [`Runtime`], purely from the contracts of its operations: the hypotheses
//! of a lemma are exactly the facts those contracts establish, and nothing
//! about any concrete implementation.

use vstd::prelude::*;

use crate::runtime::Runtime;

verus! {

/// Law: for instants `a` not after `b` of one runtime, the duration between
/// them — which `Runtime::duration_between` returns exactly — is
/// non-negative, and between an instant and itself it is zero.
pub proof fn lemma_duration_between_nonneg<R: Runtime>(a: R::Instant, b: R::Instant)
    requires
        R::instant_time(a) <= R::instant_time(b),
    ensures
        R::instant_time(b) - R::instant_time(a) >= 0,
        R::instant_time(a) == R::instant_time(b) ==> R::instant_time(b) - R::instant_time(a) == 0,
{
}

/// Law: an instant measured against the clock reading it was taken at has
/// elapsed exactly nothing — `Runtime::elapsed` on a fresh instant returns
/// the zero duration, and elapsed time is never negative.
pub proof fn lemma_fresh_instant_elapsed_zero<R: Runtime>(rt: &R, i: R::Instant)
    requires
        R::instant_time(i) == rt.time(),
    ensures
        rt.time() - R::instant_time(i) == 0,
{
}

/// Law: a delay never completes before its duration has elapsed. If a delay
/// was created with duration `d` at instant `t0` — so its deadline is
/// `instant_time(t0) + d`, as `Runtime::delay` ensures — and a poll taken at
/// instant `t1` found it complete — so its deadline has been reached, as
/// `Runtime::delay_poll` ensures — then from `t0` to `t1` at least `d` has
/// passed, and `duration_between(t0, t1)` is defined and at least `d`.
pub proof fn lemma_delay_completes_no_sooner<R: Runtime>(
    dl: &R::Delay,
    t0: R::Instant,
    t1: R::Instant,
    d: nat,
)
    requires
        R::delay_deadline(dl) == R::instant_time(t0) + d,
        R::delay_deadline(dl) <= R::instant_time(t1),
    ensures
        R::instant_time(t0) <= R::instant_time(t1),
        R::instant_time(t1) - R::instant_time(t0) >= d,
{
}

/// Law: consecutive ticks of an interval are spaced at least one period
/// apart. If tick `t1` left the interval in a state whose due time is one
/// period past `t1` — as `Runtime::interval_poll` ensures of the state it
/// leaves behind — and the next tick `t2` was emitted no earlier than that
/// due time — as the poll that emitted it ensures — then from `t1` to `t2`
/// at least one period has passed, and `duration_between(t1, t2)` is defined
/// and at least the period.
pub proof fn lemma_interval_ticks_spaced<R: Runtime>(
    after_first: &R::Interval,
    t1: R::Instant,
    t2: R::Instant,
    period: nat,
)
    requires
        R::interval_period(after_first) == period,
        R::interval_due(after_first) == R::instant_time(t1) + period,
        R::interval_due(after_first) <= R::instant_time(t2),
    ensures
        R::instant_time(t1) <= R::instant_time(t2),
        R::instant_time(t2) - R::instant_time(t1) >= period,
{
}

/// Law: the shared-reference adapter is indistinguishable from the runtime
/// it borrows. Its logical clock and the meaning it gives every instant,
/// delay and interval are exactly those of the underlying runtime; since
/// each operation's contract pins its result over this shared model, every
/// operation invoked through the adapter is specified to behave exactly as
/// when invoked on the underlying implementation directly.
pub proof fn lemma_shared_adapter_agrees<'a, R: Runtime + 'a>(
    rt: &'a R,
    i: R::Instant,
    dl: &R::Delay,
    iv: &R::Interval,
)
    ensures
        <&'a R as Runtime>::time(&rt) == rt.time(),
        <&'a R as Runtime>::instant_time(i) == R::instant_time(i),
        <&'a R as Runtime>::delay_deadline(dl) == R::delay_deadline(dl),
        <&'a R as Runtime>::interval_period(iv) == R::interval_period(iv),
        <&'a R as Runtime>::interval_due(iv) == R::interval_due(iv),
{
}

} // verus!

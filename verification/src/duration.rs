//! A span of time, counted in whole nanoseconds.
//!
//! The capability contract deliberately avoids wall-clock or calendar time;
//! every quantity of time that crosses its boundary is a non-negative span,
//! so a single unsigned nanosecond count models it exactly.

use vstd::prelude::*;

verus! {

/// A non-negative span of time with nanosecond resolution.
///
/// Mathematically a `Duration` is just the natural number of nanoseconds it
/// covers, which is what `d@` denotes in contracts.
#[derive(Clone, Copy, PartialEq, Eq, Structural)]
pub struct Duration {
    nanos: u64,
}

pub const NANOS_PER_MICRO: u64 = 1_000;

pub const NANOS_PER_MILLI: u64 = 1_000_000;

pub const NANOS_PER_SEC: u64 = 1_000_000_000;

impl View for Duration {
    type V = nat;

    closed spec fn view(&self) -> nat {
        self.nanos as nat
    }
}

impl Duration {
    /// The duration covering `nanos` nanoseconds.
    pub fn from_nanos(nanos: u64) -> (d: Duration)
        ensures
            d@ == nanos,
    {
        Duration { nanos }
    }

    /// The duration covering `micros` microseconds.
    pub fn from_micros(micros: u64) -> (d: Duration)
        requires
            micros * NANOS_PER_MICRO <= u64::MAX,
        ensures
            d@ == micros * NANOS_PER_MICRO,
    {
        Duration { nanos: micros * NANOS_PER_MICRO }
    }

    /// The duration covering `millis` milliseconds.
    pub fn from_millis(millis: u64) -> (d: Duration)
        requires
            millis * NANOS_PER_MILLI <= u64::MAX,
        ensures
            d@ == millis * NANOS_PER_MILLI,
    {
        Duration { nanos: millis * NANOS_PER_MILLI }
    }

    /// The duration covering `secs` whole seconds.
    pub fn from_secs(secs: u64) -> (d: Duration)
        requires
            secs * NANOS_PER_SEC <= u64::MAX,
        ensures
            d@ == secs * NANOS_PER_SEC,
    {
        Duration { nanos: secs * NANOS_PER_SEC }
    }

    /// The number of nanoseconds this duration covers.
    pub fn as_nanos(&self) -> (n: u64)
        ensures
            n == self@,
    {
        self.nanos
    }

    /// Whether this duration is empty.
    pub fn is_zero(&self) -> (z: bool)
        ensures
            z <==> self@ == 0,
    {
        self.nanos == 0
    }
}

} // verus!

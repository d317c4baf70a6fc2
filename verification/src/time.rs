// Clock readings and spans of time.

use vstd::prelude::*;

verus! {

/// `std::time::Instant`, carried through the library as an opaque clock reading.
#[verifier::external_type_specification]
#[verifier::external_body]
pub struct ExInstant(std::time::Instant);

/// `Clone` of `std::time::Instant`: an `Instant` is `Copy`, and its clone is the
/// same clock reading.
pub assume_specification[ <std::time::Instant as Clone>::clone ](i: &std::time::Instant) -> (r: std::time::Instant)
    ensures
        r == *i,
;

/// Reads the monotonic clock (`std::time::Instant::now`). Nothing is stated of
/// the reading: it depends on the time at which the call is made.
#[verifier::external_body]
pub(crate) fn now() -> std::time::Instant {
    std::time::Instant::now()
}

/// The time elapsed since `start` (`std::time::Instant::elapsed`). Nothing is
/// stated of it: it depends on the time at which the call is made.
#[verifier::external_body]
pub(crate) fn elapsed(start: &std::time::Instant) -> std::time::Duration {
    start.elapsed()
}

/// Whole milliseconds of a std duration (`std::time::Duration::as_millis`).
/// Nothing is stated of the value: the library only reports it.
#[verifier::external_body]
pub(crate) fn as_millis(d: &std::time::Duration) -> u128 {
    d.as_millis()
}

/// Whole nanoseconds of a std duration (`std::time::Duration::as_nanos`),
/// taken as the library's own span. Nothing is stated of the value: std's
/// duration is opaque here.
#[verifier::external_body]
pub(crate) fn from_std(d: &std::time::Duration) -> (r: Duration)
    ensures
        r.wf(),
{
    Duration { nanos: d.as_nanos() }
}

/// The largest span a `std::time::Duration` can hold, in nanoseconds.
pub open spec fn max_span_nanos() -> nat {
    18446744073709551615 * 1000000000 + 999999999
}

/// A span of time with nanosecond resolution, as wide as `std::time::Duration`.
#[derive(Debug, Clone, Copy, PartialEq, Eq, Structural)]
pub struct Duration {
    nanos: u128,
}

impl View for Duration {
    type V = nat;

    closed spec fn view(&self) -> nat {
        self.nanos as nat
    }
}

impl Duration {
    /// The span of `n` nanoseconds.
    pub closed spec fn spec_from_nanos(n: nat) -> Duration {
        Duration { nanos: n as u128 }
    }

    /// A span built from its nanoseconds has them as its value.
    pub proof fn lemma_from_nanos(n: nat)
        requires
            n <= max_span_nanos(),
        ensures
            Duration::spec_from_nanos(n)@ == n,
            Duration::spec_from_nanos(n).wf(),
    {
    }

    /// A well-formed span fits in a `std::time::Duration`.
    pub closed spec fn wf(self) -> bool {
        self.nanos <= max_span_nanos()
    }

    pub fn zero() -> (d: Self)
        ensures
            d == Duration::spec_from_nanos(0),
            d@ == 0,
            d.wf(),
    {
        Duration { nanos: 0 }
    }

    /// The span of `secs` seconds and `nanos` nanoseconds; whole seconds in
    /// `nanos` carry over, and the seconds must not overflow then.
    pub fn new(secs: u64, nanos: u32) -> (d: Self)
        requires
            secs + nanos / 1000000000 <= u64::MAX,
        ensures
            d@ == secs * 1000000000 + nanos,
            d.wf(),
    {
        Duration { nanos: (secs as u128) * 1000000000u128 + (nanos as u128) }
    }

    pub fn as_nanos(&self) -> (n: u128)
        ensures
            n == self@,
    {
        self.nanos
    }

    /// Whole seconds of the span.
    pub fn as_secs(&self) -> (s: u64)
        requires
            self.wf(),
        ensures
            s == self@ / 1000000000,
    {
        (self.nanos / 1000000000u128) as u64
    }

    /// Nanoseconds past the whole seconds.
    pub fn subsec_nanos(&self) -> (n: u32)
        ensures
            n == self@ % 1000000000,
    {
        (self.nanos % 1000000000u128) as u32
    }

    /// Whole microseconds of the span.
    pub fn as_micros(&self) -> (m: u128)
        ensures
            m == self@ / 1000,
    {
        self.nanos / 1000u128
    }

    /// The sum of two spans; `std::time::Duration` panics when it overflows, so
    /// the sum must fit.
    pub fn plus(&self, other: &Duration) -> (d: Duration)
        requires
            self@ + other@ <= max_span_nanos(),
        ensures
            d == Duration::spec_from_nanos(self@ + other@),
            d@ == self@ + other@,
            d.wf(),
    {
        Duration { nanos: self.nanos + other.nanos }
    }

    /// The span divided by `rhs`, rounded down to whole nanoseconds, as
    /// `Duration / u32` computes it.
    pub fn divided_by(&self, rhs: u32) -> (d: Duration)
        requires
            rhs != 0,
            self.wf(),
        ensures
            d == Duration::spec_from_nanos(self@ / (rhs as nat)),
            d@ == self@ / (rhs as nat),
            d.wf(),
    {
        Duration { nanos: self.nanos / (rhs as u128) }
    }
}

} // verus!

//! Points in time and spans of time, held as plain integers.

use vstd::prelude::*;

verus! {

pub const NANOS_PER_SEC: u32 = 1_000_000_000;

/// A point in time: seconds since the UNIX epoch (UTC) and the nanoseconds
/// past that second.
#[derive(Debug, Clone, Copy, PartialEq, Eq)]
pub struct Timestamp {
    pub secs: i64,
    pub nanos: u32,
}

/// A signed span of time: whole seconds and the nanoseconds added to them
/// (`nanos < NANOS_PER_SEC` when normalized).
#[derive(Debug, Clone, Copy, PartialEq, Eq)]
pub struct TimeDelta {
    pub secs: i64,
    pub nanos: u32,
}

/// An unsigned span of time, as measured by a monotonic clock: whole seconds
/// and the nanoseconds added to them (`nanos < NANOS_PER_SEC`).
#[derive(Debug, Clone, Copy, PartialEq, Eq)]
pub struct TimeSpan {
    pub secs: u64,
    pub nanos: u32,
}

impl Timestamp {
    /// Nanoseconds since the epoch.
    pub open spec fn total_nanos(self) -> int {
        self.secs * NANOS_PER_SEC + self.nanos
    }
}

impl TimeDelta {
    pub open spec fn total_nanos(self) -> int {
        self.secs * NANOS_PER_SEC + self.nanos
    }
}

impl TimeSpan {
    pub open spec fn total_nanos(self) -> int {
        self.secs * NANOS_PER_SEC + self.nanos
    }

    pub open spec fn wf(self) -> bool {
        self.nanos < NANOS_PER_SEC
    }

    /// A span of whole seconds.
    pub fn from_secs(secs: u64) -> (r: TimeSpan)
        ensures
            r.wf(),
            r.total_nanos() == secs * NANOS_PER_SEC,
    {
        TimeSpan { secs, nanos: 0 }
    }

    /// A span of whole milliseconds.
    pub fn from_millis(millis: u64) -> (r: TimeSpan)
        ensures
            r.wf(),
            r.total_nanos() == millis * 1_000_000,
    {
        let secs = millis / 1000;
        let rem = millis % 1000;
        let nanos = (rem * 1_000_000) as u32;
        assert(secs * 1_000_000_000 + rem * 1_000_000 == millis * 1_000_000) by (nonlinear_arith)
            requires secs == millis / 1000, rem == millis % 1000;
        TimeSpan { secs, nanos }
    }

    /// Whether this span is longer than `other`.
    pub fn longer_than(&self, other: &TimeSpan) -> (b: bool)
        requires
            self.wf(),
            other.wf(),
        ensures
            b == (self.total_nanos() > other.total_nanos()),
    {
        self.secs > other.secs || (self.secs == other.secs && self.nanos > other.nanos)
    }

    /// Whether this span is empty.
    pub fn is_zero(&self) -> (b: bool)
        requires
            self.wf(),
        ensures
            b == (self.total_nanos() == 0),
    {
        self.secs == 0 && self.nanos == 0
    }

    /// `self - other`, or an empty span when `other` is longer.
    pub fn saturating_sub(&self, other: &TimeSpan) -> (r: TimeSpan)
        requires
            self.wf(),
            other.wf(),
        ensures
            r.wf(),
            r.total_nanos() == if self.total_nanos() > other.total_nanos() {
                self.total_nanos() - other.total_nanos()
            } else {
                0
            },
    {
        if !self.longer_than(other) {
            return TimeSpan { secs: 0, nanos: 0 };
        }
        if self.nanos >= other.nanos {
            TimeSpan { secs: self.secs - other.secs, nanos: self.nanos - other.nanos }
        } else {
            TimeSpan { secs: self.secs - other.secs - 1, nanos: self.nanos + NANOS_PER_SEC - other.nanos }
        }
    }
}

/// The `Debug` rendering of a span of time (such as `120s` or `50ms`).
pub uninterp spec fn span_debug(secs: u64, nanos: u32) -> Seq<char>;

/// `<std::time::Duration as Debug>::fmt` on the span `secs` + `nanos`.
#[verifier::external_body]
pub fn span_debug_text(span: &TimeSpan) -> (r: String)
    requires
        span.wf(),
    ensures
        r@ == span_debug(span.secs, span.nanos),
{
    format!("{:?}", std::time::Duration::new(span.secs, span.nanos))
}

/// `chrono::Utc::now()`, as seconds since the epoch and the nanoseconds past
/// that second. What it returns depends on the clock; nothing is stated of it.
#[verifier::external_body]
pub fn current_time() -> (r: Timestamp) {
    let now = chrono::Utc::now();
    Timestamp { secs: now.timestamp(), nanos: now.timestamp_subsec_nanos() }
}

/// Whether the span from `from` to `to` is longer than `max_age`.
pub open spec fn older_than(from: Timestamp, to: Timestamp, max_age: TimeDelta) -> bool {
    to.total_nanos() - from.total_nanos() > max_age.total_nanos()
}

/// Whether more than `max_age` passed from `from` to `to`.
pub fn elapsed_exceeds(from: &Timestamp, to: &Timestamp, max_age: &TimeDelta) -> (b: bool)
    ensures
        b == older_than(*from, *to, *max_age),
{
    let a: i128 = from.secs as i128 * 1_000_000_000 + from.nanos as i128;
    let b: i128 = to.secs as i128 * 1_000_000_000 + to.nanos as i128;
    let m: i128 = max_age.secs as i128 * 1_000_000_000 + max_age.nanos as i128;
    b - a > m
}

} // verus!

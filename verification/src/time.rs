//! Points in time and spans of time, counted in microseconds.

use vstd::prelude::*;

verus! {

/// A span of time, in whole microseconds.
#[derive(Clone, Copy, Debug, PartialEq, Eq, PartialOrd, Ord, Hash, Structural)]
pub struct Duration {
    micros: u64,
}

impl View for Duration {
    type V = int;

    /// The length of the span in microseconds.
    closed spec fn view(&self) -> int {
        self.micros as int
    }
}

impl Duration {
    /// The microseconds of a span fit 64 bits.
    pub broadcast proof fn lemma_fits(self)
        ensures
            0 <= #[trigger] self@ <= u64::MAX,
    {
    }

    /// Two spans of one length are the same span.
    pub broadcast proof fn lemma_same_length(self, other: Duration)
        ensures
            #[trigger] self@ == #[trigger] other@ ==> self == other,
    {
    }

    /// A span of `micros` microseconds.
    pub fn from_micros(micros: u64) -> (span: Duration)
        ensures
            span@ == micros,
    {
        Duration { micros }
    }

    /// A span of `millis` milliseconds.
    pub fn from_millis(millis: u64) -> (span: Duration)
        requires
            millis * 1_000 <= u64::MAX,
        ensures
            span@ == millis * 1_000,
    {
        Duration { micros: millis * 1_000 }
    }

    /// A span of `secs` seconds.
    pub fn from_secs(secs: u64) -> (span: Duration)
        requires
            secs * 1_000_000 <= u64::MAX,
        ensures
            span@ == secs * 1_000_000,
    {
        Duration { micros: secs * 1_000_000 }
    }

    /// The length of the span in microseconds.
    pub fn as_micros(&self) -> (micros: u64)
        ensures
            micros == self@,
    {
        self.micros
    }
}

/// A point in time, in whole microseconds since the clock started.
#[derive(Clone, Copy, Debug, PartialEq, Eq, PartialOrd, Ord, Hash, Structural)]
pub struct Instant {
    micros: u64,
}

impl View for Instant {
    type V = int;

    /// The microseconds between the start of the clock and this point.
    closed spec fn view(&self) -> int {
        self.micros as int
    }
}

/// The microseconds of a point in time that may be absent.
pub open spec fn micros_of(point: Option<Instant>) -> Option<int> {
    match point {
        Some(point) => Some(point@),
        None => None,
    }
}

/// `embassy_time::Instant::now`, read through `as_micros`: the microseconds
/// that the time driver has counted since it started. The driver ticks once
/// a microsecond, so `as_micros` hands the count on as it is. Nothing is
/// claimed of the number.
#[verifier::external_body]
fn clock_micros() -> u64 {
    embassy_time::Instant::now().as_micros()
}

impl Instant {
    /// The microseconds of a point in time fit 64 bits.
    pub broadcast proof fn lemma_fits(self)
        ensures
            0 <= #[trigger] self@ <= u64::MAX,
    {
    }

    /// Two points at one time are the same point.
    pub broadcast proof fn lemma_same_time(self, other: Instant)
        ensures
            #[trigger] self@ == #[trigger] other@ ==> self == other,
    {
    }

    /// The present, as the time driver gives it.
    pub fn now() -> Instant {
        Instant { micros: clock_micros() }
    }

    /// The point `micros` microseconds after the start of the clock.
    pub fn from_micros(micros: u64) -> (point: Instant)
        ensures
            point@ == micros,
    {
        Instant { micros }
    }

    /// The point `millis` milliseconds after the start of the clock.
    pub fn from_millis(millis: u64) -> (point: Instant)
        requires
            millis * 1_000 <= u64::MAX,
        ensures
            point@ == millis * 1_000,
    {
        Instant { micros: millis * 1_000 }
    }

    /// The microseconds between the start of the clock and this point.
    pub fn as_micros(&self) -> (micros: u64)
        ensures
            micros == self@,
    {
        self.micros
    }

    /// The point `span` later than this one, unless the count of
    /// microseconds leaves 64 bits.
    pub fn checked_add(&self, span: Duration) -> (later: Option<Instant>)
        ensures
            self@ + span@ <= u64::MAX ==> later is Some && later.unwrap()@ == self@ + span@,
            self@ + span@ > u64::MAX ==> later is None,
    {
        match self.micros.checked_add(span.micros) {
            Some(micros) => Some(Instant { micros }),
            None => None,
        }
    }

    /// The point `span` later than this one.
    pub fn plus(&self, span: Duration) -> (later: Instant)
        requires
            self@ + span@ <= u64::MAX,
        ensures
            later@ == self@ + span@,
    {
        Instant { micros: self.micros + span.micros }
    }

    /// The time that passed from `earlier` to this point; none if `earlier`
    /// is in fact the later of the two.
    pub fn saturating_duration_since(&self, earlier: Instant) -> (span: Duration)
        ensures
            span@ == if self@ >= earlier@ { self@ - earlier@ } else { 0 },
    {
        if self.micros >= earlier.micros {
            Duration { micros: self.micros - earlier.micros }
        } else {
            Duration { micros: 0 }
        }
    }

    /// Whether this point comes strictly after `other`.
    pub fn is_after(&self, other: Instant) -> (after: bool)
        ensures
            after == (self@ > other@),
    {
        self.micros > other.micros
    }
}

pub broadcast group group_time_fits {
    Duration::lemma_fits,
    Instant::lemma_fits,
}

} // verus!

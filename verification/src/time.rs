//! Instants in coordinated universal time.
use vstd::prelude::*;

verus! {

/// The first second that an instant can fall in.
pub const MIN_SECONDS: i64 = -8_334_601_228_800;

/// The last second that an instant can fall in.
pub const MAX_SECONDS: i64 = 8_210_266_876_799;

/// Nanoseconds in a second.
pub const NANOS_PER_SECOND: u32 = 1_000_000_000;

/// An instant: whole seconds since 1970 began, and nanoseconds after that.
#[derive(Debug, Clone, Copy, PartialEq, Eq, Structural, PartialOrd, Ord, Hash)]
pub struct Timestamp {
    pub seconds: i64,
    pub nanos: u32,
}

impl Timestamp {
    /// Whether the instant lies in the range of the calendar.
    pub open spec fn well_formed(self) -> bool {
        MIN_SECONDS <= self.seconds <= MAX_SECONDS && self.nanos < NANOS_PER_SECOND
    }

    /// Nanoseconds since 1970 began.
    pub open spec fn instant(self) -> int {
        self.seconds * NANOS_PER_SECOND + self.nanos
    }

    /// Whether this instant is before another.
    pub fn is_before(&self, other: &Timestamp) -> (r: bool)
        requires
            self.well_formed(),
            other.well_formed(),
        ensures
            r == (self.instant() < other.instant()),
    {
        self.seconds < other.seconds || (self.seconds == other.seconds && self.nanos < other.nanos)
    }

    /// The instant a number of seconds later, or earlier where it is negative.
    pub fn plus_seconds(&self, seconds: i64) -> (r: Timestamp)
        requires
            self.well_formed(),
            MIN_SECONDS <= self.seconds + seconds <= MAX_SECONDS,
        ensures
            r.well_formed(),
            r.instant() == self.instant() + seconds * NANOS_PER_SECOND,
            r.nanos == self.nanos,
            r.seconds == self.seconds + seconds,
    {
        Timestamp { seconds: self.seconds + seconds, nanos: self.nanos }
    }
}

/// Instants are told apart by their seconds, then by their nanoseconds; they lie
/// between the first and the last second of the calendar.
pub proof fn law_instants_are_ordered(a: Timestamp, b: Timestamp)
    requires
        a.well_formed(),
        b.well_formed(),
    ensures
        -8_334_601_228_800 <= a.seconds <= 8_210_266_876_799,
        a.nanos < 1_000_000_000,
        a.instant() < b.instant() <==> a.seconds < b.seconds || (a.seconds == b.seconds && a.nanos
            < b.nanos),
        a.instant() == b.instant() <==> a == b,
        a.instant() - b.instant() == (a.seconds - b.seconds) * 1_000_000_000 + (a.nanos - b.nanos),
{
}

/// Every second of the calendar, with any part of it, is an instant.
pub proof fn law_the_calendar_has_no_gaps(t: Timestamp)
    requires
        -8_334_601_228_800 <= t.seconds <= 8_210_266_876_799,
        t.nanos < 1_000_000_000,
    ensures
        t.well_formed(),
{
}

} // verus!

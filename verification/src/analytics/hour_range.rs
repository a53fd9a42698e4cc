//! Reports that read hourly totals widen their range to whole hours.
use crate::time::{Timestamp, MAX_SECONDS};
use vstd::prelude::*;

verus! {

/// Seconds in an hour.
pub const HOUR_SECONDS: i64 = 3_600;

/// Whether an instant is the beginning of an hour.
pub open spec fn is_whole_hour(t: Timestamp) -> bool {
    t.seconds as int % HOUR_SECONDS as int == 0 && t.nanos == 0
}

/// The beginning of the hour that `t` falls in.
pub open spec fn floor_hour(t: Timestamp) -> Timestamp {
    Timestamp { seconds: (t.seconds - t.seconds as int % HOUR_SECONDS as int) as i64, nanos: 0 }
}

/// The first whole hour that is not before `t`.
pub open spec fn ceiling_hour(t: Timestamp) -> Timestamp {
    if is_whole_hour(t) {
        t
    } else {
        next_hour(t)
    }
}

/// The beginning of the hour after the one that `t` falls in.
pub open spec fn next_hour(t: Timestamp) -> Timestamp {
    Timestamp { seconds: (floor_hour(t).seconds + HOUR_SECONDS) as i64, nanos: 0 }
}

/// Whether the hour after the one that `t` falls in is still in the calendar.
pub open spec fn has_next_hour(t: Timestamp) -> bool {
    floor_hour(t).seconds + HOUR_SECONDS <= MAX_SECONDS
}

/// The beginning of the hour that `t` falls in.
pub fn trunc_hour(t: Timestamp) -> (r: Timestamp)
    requires
        t.well_formed(),
    ensures
        r == floor_hour(t),
        r.well_formed(),
        is_whole_hour(r),
        r.instant() <= t.instant(),
{
    let remainder: i64 = t.seconds % HOUR_SECONDS;
    let into_hour: i64 = if remainder < 0 {
        remainder + HOUR_SECONDS
    } else {
        remainder
    };
    Timestamp { seconds: t.seconds - into_hour, nanos: 0 }
}

fn hour_after(t: Timestamp) -> (r: Timestamp)
    requires
        t.well_formed(),
        has_next_hour(t),
    ensures
        r == next_hour(t),
        r.well_formed(),
        is_whole_hour(r),
        t.instant() < r.instant(),
{
    trunc_hour(t).plus_seconds(HOUR_SECONDS)
}

/// The first whole hour that is not before `t`.
pub fn ceil_hour(t: Timestamp) -> (r: Timestamp)
    requires
        t.well_formed(),
        is_whole_hour(t) || has_next_hour(t),
    ensures
        r == ceiling_hour(t),
        r.well_formed(),
        is_whole_hour(r),
        t.instant() <= r.instant(),
{
    let floor = trunc_hour(t);
    if floor == t {
        floor
    } else {
        hour_after(t)
    }
}

/// The range `[start, end)` widened outward to whole hours.
pub fn hour_range(start: Timestamp, end_exclusive: Timestamp) -> (r: (Timestamp, Timestamp))
    requires
        start.well_formed(),
        end_exclusive.well_formed(),
        is_whole_hour(end_exclusive) || has_next_hour(end_exclusive),
    ensures
        r == (floor_hour(start), ceiling_hour(end_exclusive)),
        r.0.well_formed() && r.1.well_formed(),
        is_whole_hour(r.0) && is_whole_hour(r.1),
{
    (trunc_hour(start), ceil_hour(end_exclusive))
}

/// The range `[start, end]` widened outward to whole hours, its end excluded.
pub fn hour_range_inclusive(start: Timestamp, end_inclusive: Timestamp) -> (r: (
    Timestamp,
    Timestamp,
))
    requires
        start.well_formed(),
        end_inclusive.well_formed(),
        has_next_hour(end_inclusive),
    ensures
        r == (floor_hour(start), next_hour(end_inclusive)),
        r.0.well_formed() && r.1.well_formed(),
        is_whole_hour(r.0) && is_whole_hour(r.1),
{
    (trunc_hour(start), hour_after(end_inclusive))
}

/// A half-open range lies inside the whole hours it is widened to, and no whole
/// hour nearer to it would do at either end.
pub proof fn law_widened_range_is_the_least_cover(
    start: Timestamp,
    end: Timestamp,
    hour: Timestamp,
)
    requires
        start.well_formed(),
        end.well_formed(),
        hour.well_formed(),
        is_whole_hour(hour),
    ensures
        floor_hour(start).instant() <= start.instant(),
        is_whole_hour(end) || has_next_hour(end) ==> end.instant() <= ceiling_hour(end).instant(),
        hour.instant() <= start.instant() ==> hour.instant() <= floor_hour(start).instant(),
        end.instant() <= hour.instant() ==> ceiling_hour(end).instant() <= hour.instant(),
{
    let h = hour.seconds as int / HOUR_SECONDS as int;
    let s = start.seconds as int / HOUR_SECONDS as int;
    let e = end.seconds as int / HOUR_SECONDS as int;
    assert(hour.seconds == h * HOUR_SECONDS);
    assert(floor_hour(start).seconds == s * HOUR_SECONDS);
    assert(floor_hour(end).seconds == e * HOUR_SECONDS);
}

/// Widening a range that consists of whole hours leaves it as it is.
pub proof fn law_whole_hours_stay(start: Timestamp, end: Timestamp)
    requires
        start.well_formed(),
        end.well_formed(),
        is_whole_hour(start),
        is_whole_hour(end),
    ensures
        floor_hour(start) == start,
        ceiling_hour(end) == end,
{
}

/// An inclusive range, a single instant too, ends after its last instant and
/// is never empty.
pub proof fn law_inclusive_range_is_never_empty(start: Timestamp, end: Timestamp)
    requires
        start.well_formed(),
        end.well_formed(),
        has_next_hour(end),
        start.instant() <= end.instant(),
    ensures
        floor_hour(start).instant() <= start.instant(),
        end.instant() < next_hour(end).instant(),
        floor_hour(start).instant() < next_hour(end).instant(),
{
}

/// The hour of an instant begins at a multiple of an hour, no more than an hour
/// before it, and the next begins an hour later.
pub proof fn law_hours_are_multiples(t: Timestamp)
    requires
        t.well_formed(),
    ensures
        ({
            let hour = 3_600_000_000_000int;
            let at = t.seconds * 1_000_000_000int + t.nanos;
            let floor = floor_hour(t).seconds * 1_000_000_000int + floor_hour(t).nanos;
            &&& floor % hour == 0
            &&& 0 <= at - floor < hour
            &&& floor_hour(t).nanos == 0
            &&& is_whole_hour(t) <==> at == floor
            &&& has_next_hour(t) ==> next_hour(t).seconds == floor_hour(t).seconds + 3_600
                && next_hour(t).nanos == 0
            &&& is_whole_hour(t) ==> ceiling_hour(t) == t
            &&& !is_whole_hour(t) ==> ceiling_hour(t) == next_hour(t)
            &&& has_next_hour(t) <==> floor_hour(t).seconds + 3_600 <= 8_210_266_876_799
        }),
{
    let q = t.seconds as int / 3_600;
    assert(floor_hour(t).seconds == q * 3_600);
    assert((q * 3_600) * 1_000_000_000 == q * 3_600_000_000_000) by (nonlinear_arith);
    assert((q * 3_600_000_000_000) % 3_600_000_000_000 == 0) by (nonlinear_arith);
}

} // verus!

//! Nonces that were used once.
use crate::time::Timestamp;
use vstd::prelude::*;

verus! {

/// How long a used nonce is kept, in seconds.
pub const NONCE_LIFETIME_SECONDS: i64 = 600;

/// Whether a nonce was new: storing it a second time changes nothing.
pub fn consume_nonce(rows_inserted: u64) -> (r: bool)
    ensures
        r == (rows_inserted > 0),
{
    rows_inserted > 0
}

/// The instant before which used nonces can be forgotten.
pub fn cleanup_cutoff(now: Timestamp) -> (r: Timestamp)
    requires
        now.well_formed(),
        crate::time::MIN_SECONDS <= now.seconds - NONCE_LIFETIME_SECONDS,
    ensures
        r.well_formed(),
        r.instant() == now.instant() - NONCE_LIFETIME_SECONDS * crate::time::NANOS_PER_SECOND,
{
    now.plus_seconds(-600)
}

/// A nonce is forgotten ten minutes after it was used, and is new exactly where
/// storing it added a row.
pub proof fn law_nonces_are_kept_ten_minutes(now: Timestamp, r: Timestamp, rows: u64, new: bool)
    requires
        call_ensures(cleanup_cutoff, (now,), r),
        call_ensures(consume_nonce, (rows,), new),
    ensures
        now.instant() - r.instant() == 600_000_000_000,
        new <==> rows != 0,
{
}

} // verus!

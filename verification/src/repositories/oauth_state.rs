//! Sign-ins that are under way.
use crate::time::Timestamp;
use vstd::prelude::*;

verus! {

/// How long a sign-in may take, in seconds.
pub const STATE_LIFETIME_SECONDS: i64 = 600;

/// A sign-in that is under way.
#[derive(Debug, Clone)]
pub struct OAuthStateRow {
    pub state: String,
    pub provider: String,
    pub pkce_verifier: Option<String>,
    pub frontend_callback: Option<String>,
    pub created_at: Timestamp,
    pub expires_at: Timestamp,
}

/// A sign-in that begins now. It lapses ten minutes later.
pub fn create(
    state: String,
    provider: String,
    pkce_verifier: Option<String>,
    frontend_callback: Option<String>,
    now: Timestamp,
) -> (r: OAuthStateRow)
    requires
        now.well_formed(),
        now.seconds + STATE_LIFETIME_SECONDS <= crate::time::MAX_SECONDS,
    ensures
        r.state == state,
        r.provider == provider,
        r.pkce_verifier == pkce_verifier,
        r.frontend_callback == frontend_callback,
        r.created_at == now,
        r.expires_at.well_formed(),
        r.expires_at.instant() == now.instant() + STATE_LIFETIME_SECONDS
            * crate::time::NANOS_PER_SECOND,
{
    OAuthStateRow {
        state,
        provider,
        pkce_verifier,
        frontend_callback,
        created_at: now,
        expires_at: now.plus_seconds(STATE_LIFETIME_SECONDS),
    }
}

/// A sign-in holds what it began with, and lapses ten minutes after that.
pub proof fn law_sign_ins_last_ten_minutes(
    state: String,
    provider: String,
    pkce_verifier: Option<String>,
    frontend_callback: Option<String>,
    now: Timestamp,
    r: OAuthStateRow,
)
    requires
        call_ensures(create, (state, provider, pkce_verifier, frontend_callback, now), r),
    ensures
        r.state == state,
        r.provider == provider,
        r.pkce_verifier == pkce_verifier,
        r.frontend_callback == frontend_callback,
        r.created_at == now,
        r.expires_at.instant() - now.instant() == 600_000_000_000,
{
}

} // verus!

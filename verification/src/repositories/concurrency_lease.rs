//! How many requests of an organization run at once.
use crate::ids::Uuid;
use vstd::prelude::*;
use vstd::string::StringExecFns;

verus! {

/// The limit of an organization: the one that is stored, where it is positive,
/// or the default. Zero and less mean that none was set.
pub open spec fn limit_of(stored: Option<i32>, default_limit: u32) -> u32 {
    match stored {
        Some(value) => if value > 0 {
            value as u32
        } else {
            default_limit
        },
        None => default_limit,
    }
}

/// The limit of an organization.
pub fn effective_limit(stored: Option<i32>, default_limit: u32) -> (r: u32)
    ensures
        r == limit_of(stored, default_limit),
{
    match stored {
        Some(value) => if value > 0 {
            value as u32
        } else {
            default_limit
        },
        None => default_limit,
    }
}

/// Requests are admitted by the limit that administrators read, or by the
/// default where they read none.
pub proof fn law_admission_goes_by_the_limit_read(stored: i32, default_limit: u32)
    ensures
        limit_of(Some(stored), default_limit) == (match crate::repositories::admin_composite::read_limit(stored) {
            Some(limit) => limit,
            None => default_limit,
        }),
{
}

/// The key under which admissions of one organization to one model take turns.
pub fn lock_key(organization_id: Uuid, model_id: Uuid) -> (r: String)
    ensures
        r@ == crate::ids::hyphenated(organization_id) + ":"@ + crate::ids::hyphenated(model_id),
{
    let mut key = organization_id.to_text();
    key.append(":");
    key.append(model_id.to_text().as_str());
    key
}

/// Whether a request may run.
#[derive(Debug, Clone, Copy, PartialEq, Eq, Structural)]
pub enum LeaseOutcome {
    Admitted { limit: u32 },
    AtLimit { limit: u32, in_flight: i64 },
}

/// What a request is answered.
pub open spec fn lease_outcome(
    stored: Option<i32>,
    default_limit: u32,
    in_flight: i64,
) -> LeaseOutcome {
    let limit = limit_of(stored, default_limit);
    if in_flight >= limit {
        LeaseOutcome::AtLimit { limit, in_flight }
    } else {
        LeaseOutcome::Admitted { limit }
    }
}

/// Decides whether a request may run beside those that are in flight.
pub fn try_acquire(stored: Option<i32>, default_limit: u32, in_flight: i64) -> (r: LeaseOutcome)
    ensures
        r == lease_outcome(stored, default_limit, in_flight),
{
    let limit: u32 = effective_limit(stored, default_limit);
    if in_flight >= limit as i64 {
        LeaseOutcome::AtLimit { limit, in_flight }
    } else {
        LeaseOutcome::Admitted { limit }
    }
}

/// Admitting a request never takes an organization over its limit.
pub proof fn law_limit_is_never_exceeded(stored: Option<i32>, default_limit: u32, in_flight: i64)
    requires
        in_flight >= 0,
    ensures
        lease_outcome(stored, default_limit, in_flight) is Admitted ==> in_flight + 1 <= limit_of(
            stored,
            default_limit,
        ),
        lease_outcome(stored, default_limit, in_flight) is AtLimit <==> in_flight >= limit_of(
            stored,
            default_limit,
        ),
{
}

/// A lease that an instance holds.
#[derive(Debug, Clone, Copy, PartialEq, Eq, Structural)]
pub struct HeldLease {
    pub id: Uuid,
    pub organization_id: Uuid,
    pub model_id: Uuid,
}

/// The columns of held leases.
#[derive(Debug, Clone)]
pub struct LeaseColumns {
    pub ids: Vec<Uuid>,
    pub organization_ids: Vec<Uuid>,
    pub model_ids: Vec<Uuid>,
}

/// Lays leases out by column, so that one statement stores them all. Where
/// there is none nothing is stored.
pub fn persist_columns(leases: &Vec<HeldLease>) -> (r: Option<LeaseColumns>)
    ensures
        r is None <==> leases@.len() == 0,
        r matches Some(columns) ==> {
            &&& columns.ids@ == leases@.map_values(|lease: HeldLease| lease.id)
            &&& columns.organization_ids@ == leases@.map_values(
                |lease: HeldLease| lease.organization_id,
            )
            &&& columns.model_ids@ == leases@.map_values(|lease: HeldLease| lease.model_id)
        },
{
    if leases.len() == 0 {
        return None;
    }
    let mut ids: Vec<Uuid> = Vec::new();
    let mut organization_ids: Vec<Uuid> = Vec::new();
    let mut model_ids: Vec<Uuid> = Vec::new();
    let mut i: usize = 0;
    while i < leases.len()
        invariant
            i <= leases@.len(),
            ids@.len() == i,
            organization_ids@.len() == i,
            model_ids@.len() == i,
            forall|k: int| 0 <= k < i ==> #[trigger] ids@[k] == leases@[k].id,
            forall|k: int|
                0 <= k < i ==> #[trigger] organization_ids@[k] == leases@[k].organization_id,
            forall|k: int| 0 <= k < i ==> #[trigger] model_ids@[k] == leases@[k].model_id,
        decreases leases.len() - i,
    {
        ids.push(leases[i].id);
        organization_ids.push(leases[i].organization_id);
        model_ids.push(leases[i].model_id);
        i = i + 1;
    }
    assert(ids@ =~= leases@.map_values(|lease: HeldLease| lease.id));
    assert(organization_ids@ =~= leases@.map_values(|lease: HeldLease| lease.organization_id));
    assert(model_ids@ =~= leases@.map_values(|lease: HeldLease| lease.model_id));
    Some(LeaseColumns { ids, organization_ids, model_ids })
}

/// A stored limit above zero counts, and the default otherwise; a request runs
/// exactly while fewer are in flight than that.
pub proof fn law_requests_run_below_the_limit(stored: i32, default_limit: u32, in_flight: i64)
    ensures
        limit_of(None, default_limit) == default_limit,
        stored > 0 ==> limit_of(Some(stored), default_limit) == stored,
        stored <= 0 ==> limit_of(Some(stored), default_limit) == default_limit,
        stored > 0 && in_flight < stored ==> lease_outcome(Some(stored), default_limit, in_flight)
            == (LeaseOutcome::Admitted { limit: stored as u32 }),
        stored > 0 && in_flight >= stored ==> lease_outcome(Some(stored), default_limit, in_flight)
            == (LeaseOutcome::AtLimit { limit: stored as u32, in_flight }),
        in_flight < default_limit ==> lease_outcome(None, default_limit, in_flight) == (
        LeaseOutcome::Admitted { limit: default_limit }),
        in_flight >= default_limit ==> lease_outcome(None, default_limit, in_flight) == (
        LeaseOutcome::AtLimit { limit: default_limit, in_flight }),
{
}

/// Leases are laid out column by column, each at its own place in all of them.
pub proof fn law_leases_keep_their_place(leases: Vec<HeldLease>, r: Option<LeaseColumns>, i: int)
    requires
        call_ensures(persist_columns, (&leases,), r),
        0 <= i < leases@.len(),
    ensures
        r matches Some(columns) && columns.ids@.len() == leases@.len()
            && columns.organization_ids@.len() == leases@.len() && columns.model_ids@.len()
            == leases@.len() && columns.ids@[i] == leases@[i].id && columns.organization_ids@[i]
            == leases@[i].organization_id && columns.model_ids@[i] == leases@[i].model_id,
{
}

} // verus!

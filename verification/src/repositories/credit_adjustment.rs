//! Taking back part of a charge.
//!
//! A correction gives back what was charged by mistake: first the part that no
//! credit funded, then funded allocations from the lowest priority up. A
//! write-off forgives usage that no credit funded and touches no allocation.
use crate::error::{not_found, validation_failed, RepositoryError};
use crate::ids::Uuid;
use crate::repositories::credit_allocation::lock_organization_accounting;
use crate::text::{blank, same_text};
use crate::time::Timestamp;
use crate::waterfall::saturating_sub;
use vstd::prelude::*;

verus! {

/// The kind of usage that is adjusted.
#[derive(Debug, Clone, Copy, PartialEq, Eq, Structural)]
pub enum AdjustedUsageKind {
    Inference,
    Service,
}

impl AdjustedUsageKind {
    /// The identifier in the column of its kind of usage, and nothing in the
    /// other column.
    pub open spec fn columns(self, usage_id: Uuid) -> (Option<Uuid>, Option<Uuid>) {
        match self {
            AdjustedUsageKind::Inference => (Some(usage_id), None),
            AdjustedUsageKind::Service => (None, Some(usage_id)),
        }
    }

    /// The two columns that hold the usage: inference and service.
    pub fn parent_ids(self, usage_id: Uuid) -> (r: (Option<Uuid>, Option<Uuid>))
        ensures
            r == self.columns(usage_id),
    {
        match self {
            AdjustedUsageKind::Inference => (Some(usage_id), None),
            AdjustedUsageKind::Service => (None, Some(usage_id)),
        }
    }
}

/// The kind of an adjustment.
#[derive(Debug, Clone, Copy, PartialEq, Eq, Structural)]
pub enum CreditAdjustmentKind {
    Correction,
    Writeoff,
}

impl CreditAdjustmentKind {
    /// The name under which a kind is stored.
    pub open spec fn name(self) -> Seq<char> {
        match self {
            CreditAdjustmentKind::Correction => "correction"@,
            CreditAdjustmentKind::Writeoff => "writeoff"@,
        }
    }

    /// The name under which a kind is stored.
    pub fn as_str(self) -> (r: &'static str)
        ensures
            r@ == self.name(),
    {
        match self {
            CreditAdjustmentKind::Correction => "correction",
            CreditAdjustmentKind::Writeoff => "writeoff",
        }
    }

    /// The kind that a stored name stands for.
    pub open spec fn named(name: Seq<char>) -> Option<CreditAdjustmentKind> {
        if name == "correction"@ {
            Some(CreditAdjustmentKind::Correction)
        } else if name == "writeoff"@ {
            Some(CreditAdjustmentKind::Writeoff)
        } else {
            None
        }
    }

    /// The kind that a stored name stands for.
    pub fn from_name(name: &str) -> (r: Option<CreditAdjustmentKind>)
        ensures
            r == CreditAdjustmentKind::named(name@),
    {
        if same_text(name, "correction") {
            Some(CreditAdjustmentKind::Correction)
        } else if same_text(name, "writeoff") {
            Some(CreditAdjustmentKind::Writeoff)
        } else {
            None
        }
    }
}

/// The name of a kind stands for that kind.
pub proof fn law_kind_reads_back(kind: CreditAdjustmentKind)
    ensures
        CreditAdjustmentKind::named(kind.name()) == Some(kind),
{
    reveal_strlit("correction");
    reveal_strlit("writeoff");
    assert("correction"@.len() == 10);
    assert("writeoff"@.len() == 8);
}

/// A request for an adjustment.
#[derive(Debug, Clone)]
pub struct CreateCreditAdjustment {
    pub organization_id: Uuid,
    pub usage_id: Uuid,
    pub usage_kind: AdjustedUsageKind,
    pub adjustment_kind: CreditAdjustmentKind,
    pub amount: i64,
    pub reason: String,
    pub idempotency_key: String,
    pub changed_by_user_id: Option<Uuid>,
    pub changed_by_user_email: Option<String>,
}

/// What an adjustment takes back of one allocation.
#[derive(Debug, Clone)]
pub struct CreditAllocationReversal {
    pub allocation_id: Uuid,
    pub credit_type: String,
    pub amount: i64,
}

/// An adjustment that was made.
#[derive(Debug, Clone)]
pub struct CreditAdjustment {
    pub id: Uuid,
    pub organization_id: Uuid,
    pub usage_id: Uuid,
    pub usage_kind: AdjustedUsageKind,
    pub adjustment_kind: CreditAdjustmentKind,
    pub amount: i64,
    pub unfunded_amount_reversed: i64,
    pub reason: String,
    pub idempotency_key: String,
    pub changed_by_user_id: Option<Uuid>,
    pub changed_by_user_email: Option<String>,
    pub created_at: Timestamp,
    pub allocation_reversals: Vec<CreditAllocationReversal>,
}

/// The longest idempotency key, in bytes.
pub const MAX_IDEMPOTENCY_KEY: usize = 100;

/// What a request by itself is answered: the first rule that it breaks.
pub open spec fn request_problem(request: CreateCreditAdjustment) -> Option<Seq<char>> {
    if request.amount <= 0 {
        Some("adjustment amount must be positive"@)
    } else if crate::text::is_blank(request.reason@) || crate::text::is_blank(
        request.idempotency_key@,
    ) {
        Some("adjustment reason and idempotency key are required"@)
    } else if vstd::utf8::encode_utf8(request.idempotency_key@).len() > MAX_IDEMPOTENCY_KEY {
        Some("adjustment idempotency key must not exceed 100 characters"@)
    } else {
        None
    }
}

/// Checks a request before anything is read.
pub fn check_request(request: &CreateCreditAdjustment) -> (r: Result<(), RepositoryError>)
    ensures
        match r {
            Ok(_) => request_problem(*request) is None,
            Err(e) => request_problem(*request) is Some && e@
                == crate::error::RepositoryErrorView::ValidationFailed(
                request_problem(*request)->0,
            ),
        },
{
    if request.amount <= 0 {
        return Err(validation_failed("adjustment amount must be positive"));
    }
    if blank(request.reason.as_str()) || blank(request.idempotency_key.as_str()) {
        return Err(validation_failed("adjustment reason and idempotency key are required"));
    }
    if request.idempotency_key.as_str().as_bytes().len() > MAX_IDEMPOTENCY_KEY {
        return Err(
            validation_failed("adjustment idempotency key must not exceed 100 characters"),
        );
    }
    Ok(())
}

/// Whether an adjustment is the one that a request asks for.
pub open spec fn same_adjustment(
    existing: CreditAdjustment,
    request: CreateCreditAdjustment,
) -> bool {
    &&& existing.usage_id == request.usage_id
    &&& existing.usage_kind == request.usage_kind
    &&& existing.adjustment_kind == request.adjustment_kind
    &&& existing.amount == request.amount
    &&& existing.reason@ == request.reason@
}

/// Answers a request whose idempotency key was used before: with the adjustment
/// that was made then, if it is the same one.
pub fn replay(existing: CreditAdjustment, request: &CreateCreditAdjustment) -> (r: Result<
    CreditAdjustment,
    RepositoryError,
>)
    ensures
        match r {
            Ok(adjustment) => adjustment == existing && same_adjustment(existing, *request),
            Err(e) => !same_adjustment(existing, *request) && e@
                == crate::error::RepositoryErrorView::ValidationFailed(
                "adjustment idempotency key already exists with different data"@,
            ),
        },
{
    if existing.usage_id != request.usage_id || existing.usage_kind != request.usage_kind
        || existing.adjustment_kind != request.adjustment_kind || existing.amount != request.amount
        || !same_text(existing.reason.as_str(), request.reason.as_str()) {
        return Err(
            validation_failed("adjustment idempotency key already exists with different data"),
        );
    }
    Ok(existing)
}

/// The charge that is adjusted. What no credit funded is unknown for usage from
/// before funding was recorded.
#[derive(Debug, Clone, Copy, PartialEq, Eq, Structural)]
pub struct UsageCharge {
    pub total_cost: i64,
    pub unfunded_amount: Option<i64>,
}

/// What earlier adjustments of the same charge took back in all.
#[derive(Debug, Clone, Copy, PartialEq, Eq, Structural)]
pub struct PriorAdjustments {
    pub amount: i64,
    pub unfunded: i64,
}

/// What is left to adjust of a charge.
pub open spec fn effective_cost(charge: UsageCharge, prior: PriorAdjustments) -> int {
    crate::waterfall::saturated(charge.total_cost - prior.amount)
}

/// What is left of the part that no credit funded.
pub open spec fn unresolved_unfunded(unfunded: i64, prior: PriorAdjustments) -> int {
    crate::waterfall::greater(crate::waterfall::saturated(unfunded - prior.unfunded), 0)
}

/// What an adjustment takes back of the part that no credit funded.
pub open spec fn unfunded_part(kind: CreditAdjustmentKind, amount: int, unresolved: int) -> int {
    match kind {
        CreditAdjustmentKind::Correction => crate::waterfall::lesser(amount, unresolved),
        CreditAdjustmentKind::Writeoff => amount,
    }
}

/// What a request is answered, given the charge and what earlier adjustments
/// took back: how much of each part it takes back, or the first rule it breaks.
pub open spec fn split_result(
    kind: CreditAdjustmentKind,
    amount: i64,
    charge: Option<UsageCharge>,
    prior: PriorAdjustments,
) -> Result<(int, int), crate::error::RepositoryErrorView> {
    match charge {
        None => Err(crate::error::RepositoryErrorView::NotFound("usage charge not found"@)),
        Some(found) => match found.unfunded_amount {
            None => Err(
                crate::error::RepositoryErrorView::ValidationFailed(
                    "legacy usage with unknown funding cannot be adjusted"@,
                ),
            ),
            Some(unfunded) => if amount > effective_cost(found, prior) {
                Err(
                    crate::error::RepositoryErrorView::ValidationFailed(
                        "adjustment exceeds the remaining effective usage cost"@,
                    ),
                )
            } else if kind == CreditAdjustmentKind::Writeoff && amount > unresolved_unfunded(
                unfunded,
                prior,
            ) {
                Err(
                    crate::error::RepositoryErrorView::ValidationFailed(
                        "write-off exceeds unresolved unfunded usage"@,
                    ),
                )
            } else {
                let part = unfunded_part(
                    kind,
                    amount as int,
                    unresolved_unfunded(unfunded, prior),
                );
                Ok((part, amount - part))
            },
        },
    }
}

/// How an adjustment divides: the unfunded part, and the part that is taken
/// back of allocations.
#[derive(Debug, Clone, Copy, PartialEq, Eq, Structural)]
pub struct AdjustmentSplit {
    pub unfunded_reversed: i64,
    pub funded_to_reverse: i64,
}

/// Divides an adjustment between the unfunded part of a charge and its
/// allocations.
pub fn split_adjustment(
    kind: CreditAdjustmentKind,
    amount: i64,
    charge: Option<UsageCharge>,
    prior: PriorAdjustments,
) -> (r: Result<AdjustmentSplit, RepositoryError>)
    requires
        amount > 0,
    ensures
        split_result(kind, amount, charge, prior) == (match r {
            Ok(split) => Ok((split.unfunded_reversed as int, split.funded_to_reverse as int)),
            Err(e) => Err(e@),
        }),
        r matches Ok(split) ==> split.unfunded_reversed >= 0 && split.funded_to_reverse >= 0
            && split.unfunded_reversed + split.funded_to_reverse == amount,
        r matches Ok(split) ==> (kind == CreditAdjustmentKind::Writeoff ==> split.funded_to_reverse
            == 0),
{
    let found = match charge {
        None => return Err(not_found("usage charge not found")),
        Some(found) => found,
    };
    let unfunded: i64 = match found.unfunded_amount {
        None => return Err(
            validation_failed("legacy usage with unknown funding cannot be adjusted"),
        ),
        Some(unfunded) => unfunded,
    };
    let effective: i64 = saturating_sub(found.total_cost, prior.amount);
    let less: i64 = saturating_sub(unfunded, prior.unfunded);
    let unresolved: i64 = if less < 0 {
        0
    } else {
        less
    };
    if amount > effective {
        return Err(validation_failed("adjustment exceeds the remaining effective usage cost"));
    }
    if kind == CreditAdjustmentKind::Writeoff && amount > unresolved {
        return Err(validation_failed("write-off exceeds unresolved unfunded usage"));
    }
    let unfunded_reversed: i64 = match kind {
        CreditAdjustmentKind::Correction => if amount <= unresolved {
            amount
        } else {
            unresolved
        },
        CreditAdjustmentKind::Writeoff => amount,
    };
    Ok(AdjustmentSplit { unfunded_reversed, funded_to_reverse: amount - unfunded_reversed })
}

/// What is left of an allocation of the adjusted charge; the allocations come
/// from the lowest priority up.
#[derive(Debug, Clone, Copy, PartialEq, Eq, Structural)]
pub struct OpenAllocation {
    pub id: Uuid,
    pub available: i64,
}

/// What can be taken back of each allocation.
pub open spec fn reversible(allocations: Seq<OpenAllocation>) -> Seq<int> {
    allocations.map_values(
        |allocation: OpenAllocation| crate::waterfall::greater(allocation.available as int, 0),
    )
}

/// One reversal to store.
#[derive(Debug, Clone, Copy, PartialEq, Eq, Structural)]
pub struct ReversalInsert {
    pub allocation_id: Uuid,
    pub amount: i64,
}

/// The positions of the allocations that an adjustment takes something back of.
pub open spec fn reversal_positions(allocations: Seq<OpenAllocation>, funded: i64) -> Seq<int> {
    crate::waterfall::funded(reversible(allocations), funded as int, allocations.len() as int)
}

/// The sum of the amounts of all reversals.
pub open spec fn reversals_total(reversals: Seq<ReversalInsert>) -> int
    decreases reversals.len(),
{
    if reversals.len() == 0 {
        0
    } else {
        reversals_total(reversals.drop_last()) + reversals.last().amount
    }
}

/// Takes `funded` back of the allocations of a charge, in the order in which
/// they come, each up to what is left of it. The allocations must cover it.
pub fn reverse_allocations(allocations: &Vec<OpenAllocation>, funded: i64) -> (r: Result<
    Vec<ReversalInsert>,
    RepositoryError,
>)
    requires
        funded >= 0,
    ensures
        match r {
            Ok(reversals) => {
                let positions = reversal_positions(allocations@, funded);
                &&& reversals@.len() == positions.len()
                &&& forall|k: int|
                    0 <= k < positions.len() ==> (#[trigger] reversals@[k]).allocation_id
                        == allocations@[positions[k]].id && reversals@[k].amount
                        == crate::waterfall::share(
                        reversible(allocations@),
                        funded as int,
                        positions[k],
                    )
                &&& reversals_total(reversals@) == funded
            },
            Err(e) => e@ == crate::error::RepositoryErrorView::ValidationFailed(
                "adjustment does not reconcile with remaining funding"@,
            ),
        },
        r is Ok <==> funded <= crate::waterfall::level(
            reversible(allocations@),
            allocations@.len() as int,
        ),
{
    let ghost caps = reversible(allocations@);
    let ghost n = allocations@.len() as int;
    let mut reversals: Vec<ReversalInsert> = Vec::new();
    let mut remaining: i64 = funded;
    let mut i: usize = 0;
    while i < allocations.len() && remaining != 0
        invariant
            i <= allocations@.len(),
            n == allocations@.len(),
            caps == reversible(allocations@),
            crate::waterfall::non_negative(caps),
            funded >= 0,
            remaining >= 0,
            remaining == funded - crate::waterfall::lesser(
                funded as int,
                crate::waterfall::level(caps, i as int),
            ),
            reversals_total(reversals@) == funded - remaining,
            reversals@.len() == crate::waterfall::funded(caps, funded as int, i as int).len(),
            forall|k: int|
                0 <= k < reversals@.len() ==> (#[trigger] reversals@[k]).allocation_id
                    == allocations@[crate::waterfall::funded(caps, funded as int, i as int)[k]].id
                    && reversals@[k].amount == crate::waterfall::share(
                    caps,
                    funded as int,
                    crate::waterfall::funded(caps, funded as int, i as int)[k],
                ),
        decreases allocations.len() - i,
    {
        let left: i64 = allocations[i].available;
        let available: i64 = if left < 0 {
            0
        } else {
            left
        };
        let amount: i64 = if remaining <= available {
            remaining
        } else {
            available
        };
        proof {
            assert(caps[i as int] == available);
            crate::waterfall::lemma_level_monotonic(caps, i as int, i + 1);
            assert(amount == crate::waterfall::share(caps, funded as int, i as int));
        }
        if amount != 0 {
            let reversal = ReversalInsert { allocation_id: allocations[i].id, amount };
            proof {
                assert(reversals@.push(reversal).drop_last() =~= reversals@);
                let list = crate::waterfall::funded(caps, funded as int, i as int);
                assert(crate::waterfall::funded(caps, funded as int, i + 1) == list.push(i as int));
            }
            reversals.push(reversal);
            remaining = remaining - amount;
        }
        i = i + 1;
    }
    proof {
        if i < n {
            crate::waterfall::lemma_nothing_left(caps, funded as int, i as int, n);
        }
        crate::waterfall::lemma_level_monotonic(caps, i as int, n);
    }
    if remaining != 0 {
        return Err(validation_failed("adjustment does not reconcile with remaining funding"));
    }
    Ok(reversals)
}

/// What an adjustment stores besides itself.
#[derive(Debug, Clone)]
pub struct AdjustmentPlan {
    pub unfunded_reversed: i64,
    pub reversals: Vec<ReversalInsert>,
}

/// Why an adjustment cannot be made, where it cannot.
pub open spec fn adjustment_problem(
    kind: CreditAdjustmentKind,
    amount: i64,
    charge: Option<UsageCharge>,
    prior: PriorAdjustments,
    allocations: Seq<OpenAllocation>,
) -> Option<crate::error::RepositoryErrorView> {
    match split_result(kind, amount, charge, prior) {
        Err(problem) => Some(problem),
        Ok(split) => if split.1 > crate::waterfall::level(
            reversible(allocations),
            allocations.len() as int,
        ) {
            Some(
                crate::error::RepositoryErrorView::ValidationFailed(
                    "adjustment does not reconcile with remaining funding"@,
                ),
            )
        } else {
            None
        },
    }
}

/// Whether a plan is the one for an adjustment that can be made.
pub open spec fn is_adjustment_plan(
    kind: CreditAdjustmentKind,
    amount: i64,
    charge: Option<UsageCharge>,
    prior: PriorAdjustments,
    allocations: Seq<OpenAllocation>,
    plan: AdjustmentPlan,
) -> bool {
    let funded = amount - plan.unfunded_reversed;
    let positions = reversal_positions(allocations, funded as i64);
    &&& split_result(kind, amount, charge, prior) == Ok::<
        (int, int),
        crate::error::RepositoryErrorView,
    >((plan.unfunded_reversed as int, funded))
    &&& plan.unfunded_reversed >= 0
    &&& plan.unfunded_reversed + reversals_total(plan.reversals@) == amount
    &&& kind == CreditAdjustmentKind::Writeoff ==> plan.reversals@.len() == 0
    &&& plan.reversals@.len() == positions.len()
    &&& forall|k: int|
        0 <= k < positions.len() ==> (#[trigger] plan.reversals@[k]).allocation_id
            == allocations[positions[k]].id && plan.reversals@[k].amount == crate::waterfall::share(
            reversible(allocations),
            funded,
            positions[k],
        )
}

/// Plans an adjustment, from the charge, what earlier adjustments took back of
/// it, and what is left of its allocations.
pub fn plan_adjustment(
    kind: CreditAdjustmentKind,
    amount: i64,
    charge: Option<UsageCharge>,
    prior: PriorAdjustments,
    allocations: &Vec<OpenAllocation>,
) -> (r: Result<AdjustmentPlan, RepositoryError>)
    requires
        amount > 0,
    ensures
        match r {
            Ok(plan) => is_adjustment_plan(kind, amount, charge, prior, allocations@, plan)
                && adjustment_problem(kind, amount, charge, prior, allocations@) is None,
            Err(e) => adjustment_problem(kind, amount, charge, prior, allocations@) == Some(e@),
        },
{
    let split = match split_adjustment(kind, amount, charge, prior) {
        Err(e) => return Err(e),
        Ok(split) => split,
    };
    proof {
        let caps = reversible(allocations@);
        crate::waterfall::lemma_level_monotonic(caps, 0, allocations@.len() as int);
        if split.funded_to_reverse == 0 {
            crate::waterfall::lemma_nothing_left(caps, 0, 0, allocations@.len() as int);
        }
    }
    match reverse_allocations(allocations, split.funded_to_reverse) {
        Err(e) => Err(e),
        Ok(reversals) => Ok(
            AdjustmentPlan { unfunded_reversed: split.unfunded_reversed, reversals },
        ),
    }
}

/// What a request for an adjustment leads to.
#[derive(Debug, Clone)]
pub enum AdjustmentOutcome {
    /// The adjustment was made before, under the same idempotency key.
    Replayed(CreditAdjustment),
    /// The adjustment is to be stored.
    Planned(AdjustmentPlan),
}

/// Why a request is refused, where it is: the first of the rules that it
/// breaks, that its organization breaks, that an adjustment under the same key
/// breaks, and that the charge breaks.
pub open spec fn creation_problem(
    request: CreateCreditAdjustment,
    organization_found: bool,
    existing: Option<CreditAdjustment>,
    charge: Option<UsageCharge>,
    prior: PriorAdjustments,
    allocations: Seq<OpenAllocation>,
) -> Option<crate::error::RepositoryErrorView> {
    if request_problem(request) is Some {
        Some(crate::error::RepositoryErrorView::ValidationFailed(request_problem(request)->0))
    } else if !organization_found {
        Some(
            crate::error::RepositoryErrorView::NotFound(
                "Active organization not found: "@ + crate::ids::hyphenated(
                    request.organization_id,
                ),
            ),
        )
    } else {
        match existing {
            Some(found) => if same_adjustment(found, request) {
                None
            } else {
                Some(
                    crate::error::RepositoryErrorView::ValidationFailed(
                        "adjustment idempotency key already exists with different data"@,
                    ),
                )
            },
            None => adjustment_problem(
                request.adjustment_kind,
                request.amount,
                charge,
                prior,
                allocations,
            ),
        }
    }
}

/// Answers a request for an adjustment: with the adjustment that was made under
/// the same idempotency key, with what is to be stored, or with a refusal.
pub fn create(
    request: &CreateCreditAdjustment,
    organization_found: bool,
    existing: Option<CreditAdjustment>,
    charge: Option<UsageCharge>,
    prior: PriorAdjustments,
    allocations: &Vec<OpenAllocation>,
) -> (r: Result<AdjustmentOutcome, RepositoryError>)
    ensures
        match r {
            Ok(AdjustmentOutcome::Replayed(adjustment)) => existing == Some(adjustment)
                && same_adjustment(adjustment, *request),
            Ok(AdjustmentOutcome::Planned(plan)) => existing is None && is_adjustment_plan(
                request.adjustment_kind,
                request.amount,
                charge,
                prior,
                allocations@,
                plan,
            ),
            Err(e) => true,
        },
        creation_problem(
            *request,
            organization_found,
            existing,
            charge,
            prior,
            allocations@,
        ) == (match r {
            Ok(_) => None,
            Err(e) => Some(e@),
        }),
{
    match check_request(request) {
        Err(e) => return Err(e),
        Ok(_) => {},
    }
    match lock_organization_accounting(request.organization_id, organization_found) {
        Err(e) => return Err(e),
        Ok(_) => {},
    }
    match existing {
        Some(found) => match replay(found, request) {
            Err(e) => Err(e),
            Ok(adjustment) => Ok(AdjustmentOutcome::Replayed(adjustment)),
        },
        None => match plan_adjustment(
            request.adjustment_kind,
            request.amount,
            charge,
            prior,
            allocations,
        ) {
            Err(e) => Err(e),
            Ok(plan) => Ok(AdjustmentOutcome::Planned(plan)),
        },
    }
}

/// Ends an adjustment: the balance of the organization must have been lowered.
pub fn check_balance_update(balance_rows_updated: u64) -> (r: Result<(), RepositoryError>)
    ensures
        match r {
            Ok(_) => balance_rows_updated == 1,
            Err(e) => balance_rows_updated != 1 && e@
                == crate::error::RepositoryErrorView::ValidationFailed(
                "adjustment does not reconcile with organization balance"@,
            ),
        },
{
    if balance_rows_updated != 1 {
        Err(validation_failed("adjustment does not reconcile with organization balance"))
    } else {
        Ok(())
    }
}

/// An adjustment as it is stored.
#[derive(Debug, Clone)]
pub struct CreditAdjustmentRow {
    pub id: Uuid,
    pub organization_id: Uuid,
    pub inference_usage_id: Option<Uuid>,
    pub service_usage_id: Option<Uuid>,
    pub adjustment_type: String,
    pub amount: i64,
    pub unfunded_amount_reversed: i64,
    pub reason: String,
    pub idempotency_key: String,
    pub changed_by_user_id: Option<Uuid>,
    pub changed_by_user_email: Option<String>,
    pub created_at: Timestamp,
}

/// The usage that the two columns of a row hold, where exactly one holds one.
pub open spec fn row_parent(
    inference: Option<Uuid>,
    service: Option<Uuid>,
) -> Option<(AdjustedUsageKind, Uuid)> {
    match (inference, service) {
        (Some(id), None) => Some((AdjustedUsageKind::Inference, id)),
        (None, Some(id)) => Some((AdjustedUsageKind::Service, id)),
        _ => None,
    }
}

/// Reads a stored adjustment.
pub fn load_adjustment(row: CreditAdjustmentRow, reversals: Vec<CreditAllocationReversal>) -> (r:
    Result<CreditAdjustment, RepositoryError>)
    ensures
        match r {
            Ok(adjustment) => {
                &&& CreditAdjustmentKind::named(row.adjustment_type@) == Some(
                    adjustment.adjustment_kind,
                )
                &&& row_parent(row.inference_usage_id, row.service_usage_id) == Some(
                    (adjustment.usage_kind, adjustment.usage_id),
                )
                &&& adjustment.id == row.id
                &&& adjustment.organization_id == row.organization_id
                &&& adjustment.amount == row.amount
                &&& adjustment.unfunded_amount_reversed == row.unfunded_amount_reversed
                &&& adjustment.reason == row.reason
                &&& adjustment.idempotency_key == row.idempotency_key
                &&& adjustment.changed_by_user_id == row.changed_by_user_id
                &&& adjustment.changed_by_user_email == row.changed_by_user_email
                &&& adjustment.created_at == row.created_at
                &&& adjustment.allocation_reversals == reversals
            },
            Err(e) => e@ == crate::error::RepositoryErrorView::ValidationFailed(
                if CreditAdjustmentKind::named(row.adjustment_type@) is None {
                    "stored adjustment type is invalid"@
                } else {
                    "stored adjustment parent is invalid"@
                },
            ),
        },
        r is Ok <==> CreditAdjustmentKind::named(row.adjustment_type@) is Some && row_parent(
            row.inference_usage_id,
            row.service_usage_id,
        ) is Some,
{
    let adjustment_kind = match CreditAdjustmentKind::from_name(row.adjustment_type.as_str()) {
        Some(kind) => kind,
        None => return Err(validation_failed("stored adjustment type is invalid")),
    };
    let (usage_kind, usage_id) = match (row.inference_usage_id, row.service_usage_id) {
        (Some(id), None) => (AdjustedUsageKind::Inference, id),
        (None, Some(id)) => (AdjustedUsageKind::Service, id),
        _ => return Err(validation_failed("stored adjustment parent is invalid")),
    };
    Ok(
        CreditAdjustment {
            id: row.id,
            organization_id: row.organization_id,
            usage_id,
            usage_kind,
            adjustment_kind,
            amount: row.amount,
            unfunded_amount_reversed: row.unfunded_amount_reversed,
            reason: row.reason,
            idempotency_key: row.idempotency_key,
            changed_by_user_id: row.changed_by_user_id,
            changed_by_user_email: row.changed_by_user_email,
            created_at: row.created_at,
            allocation_reversals: reversals,
        },
    )
}

/// The usage of an adjustment is read back from the columns it is stored in.
pub proof fn law_parent_reads_back(kind: AdjustedUsageKind, usage_id: Uuid)
    ensures
        row_parent(kind.columns(usage_id).0, kind.columns(usage_id).1) == Some((kind, usage_id)),
{
}

/// An accepted adjustment takes back no more than is left of the charge, and of
/// its unfunded part no more than is left of that.
pub proof fn law_adjustment_stays_within_charge(
    kind: CreditAdjustmentKind,
    amount: i64,
    charge: UsageCharge,
    prior: PriorAdjustments,
)
    requires
        amount > 0,
        split_result(kind, amount, Some(charge), prior) is Ok,
    ensures
        amount <= effective_cost(charge, prior),
        ({
            let split = split_result(kind, amount, Some(charge), prior)->Ok_0;
            &&& split.0 + split.1 == amount
            &&& 0 <= split.0 <= unresolved_unfunded(charge.unfunded_amount->0, prior)
            &&& 0 <= split.1
        }),
{
}

/// A correction takes back funded allocations only once all of the unfunded
/// part is taken back.
pub proof fn law_unfunded_part_goes_first(
    amount: i64,
    charge: UsageCharge,
    prior: PriorAdjustments,
)
    requires
        amount > 0,
        split_result(CreditAdjustmentKind::Correction, amount, Some(charge), prior) is Ok,
        split_result(CreditAdjustmentKind::Correction, amount, Some(charge), prior)->Ok_0.1 > 0,
    ensures
        split_result(CreditAdjustmentKind::Correction, amount, Some(charge), prior)->Ok_0.0
            == unresolved_unfunded(charge.unfunded_amount->0, prior),
{
}

/// No allocation is reversed by more than is left of it, and one is reversed
/// only once every allocation of lower priority is reversed in full.
pub proof fn law_lowest_priority_is_reversed_first(
    allocations: Seq<OpenAllocation>,
    funded: int,
    lower: int,
    higher: int,
)
    requires
        funded >= 0,
        0 <= lower < higher < allocations.len(),
        crate::waterfall::share(reversible(allocations), funded, higher) > 0,
    ensures
        crate::waterfall::share(reversible(allocations), funded, lower) == crate::waterfall::greater(
            allocations[lower].available as int,
            0,
        ),
        crate::waterfall::share(reversible(allocations), funded, higher)
            <= crate::waterfall::greater(allocations[higher].available as int, 0),
{
    crate::waterfall::law_earlier_capacities_fill_first(
        reversible(allocations),
        funded,
        lower,
        higher,
    );
    crate::waterfall::law_share_within_capacity(reversible(allocations), funded, higher);
}

/// A write-off is made exactly where it takes back no more than is left of the
/// charge and no more than is left of the part that no credit funded; it takes
/// back nothing else.
pub proof fn law_writeoff_is_made_within_the_unfunded_part(
    amount: i64,
    total_cost: i64,
    unfunded: i64,
    prior: PriorAdjustments,
)
    requires
        amount > 0,
    ensures
        ({
            let charge = UsageCharge { total_cost, unfunded_amount: Some(unfunded) };
            let result = split_result(CreditAdjustmentKind::Writeoff, amount, Some(charge), prior);
            &&& result is Ok <==> amount <= total_cost - prior.amount && amount <= unfunded
                - prior.unfunded
            &&& result is Ok ==> result->Ok_0.0 == amount && result->Ok_0.1 == 0
            &&& amount > total_cost - prior.amount ==> result->Err_0
                == crate::error::RepositoryErrorView::ValidationFailed(
                "adjustment exceeds the remaining effective usage cost"@,
            )
            &&& result is Err && amount <= total_cost - prior.amount ==> result->Err_0
                == crate::error::RepositoryErrorView::ValidationFailed(
                "write-off exceeds unresolved unfunded usage"@,
            )
        }),
{
}

/// A correction is made exactly where it takes back no more than is left of the
/// charge. It takes back what is left of the part that no credit funded, as far
/// as it needs it, and only then what credit funded.
pub proof fn law_correction_is_made_within_the_charge(
    amount: i64,
    total_cost: i64,
    unfunded: i64,
    prior: PriorAdjustments,
)
    requires
        amount > 0,
    ensures
        ({
            let charge = UsageCharge { total_cost, unfunded_amount: Some(unfunded) };
            let result = split_result(CreditAdjustmentKind::Correction, amount, Some(charge), prior);
            &&& result is Ok <==> amount <= total_cost - prior.amount
            &&& result is Ok ==> result->Ok_0.0 + result->Ok_0.1 == amount
            &&& result is Ok && amount <= unfunded - prior.unfunded ==> result->Ok_0.0 == amount
            &&& result is Ok && 0 <= unfunded - prior.unfunded < amount ==> result->Ok_0.0
                == unfunded - prior.unfunded
            &&& result is Ok && unfunded < prior.unfunded ==> result->Ok_0.0 == 0
            &&& result is Err ==> result->Err_0
                == crate::error::RepositoryErrorView::ValidationFailed(
                "adjustment exceeds the remaining effective usage cost"@,
            )
        }),
{
}

/// A charge that does not exist is not found, and one whose funding is not known
/// cannot be adjusted, whatever is asked for.
pub proof fn law_only_known_charges_are_adjusted(
    kind: CreditAdjustmentKind,
    amount: i64,
    total_cost: i64,
    prior: PriorAdjustments,
)
    ensures
        split_result(kind, amount, None, prior) == Err::<
            (int, int),
            crate::error::RepositoryErrorView,
        >(crate::error::RepositoryErrorView::NotFound("usage charge not found"@)),
        split_result(
            kind,
            amount,
            Some((UsageCharge { total_cost, unfunded_amount: None })),
            prior,
        ) == Err::<(int, int), crate::error::RepositoryErrorView>(
            crate::error::RepositoryErrorView::ValidationFailed(
                "legacy usage with unknown funding cannot be adjusted"@,
            ),
        ),
{
}

/// Adjustments that are made one after another never take back more than the
/// charge, nor more of the unfunded part than there was.
pub proof fn law_adjustments_add_up_within_the_charge(
    kind: CreditAdjustmentKind,
    amount: i64,
    total_cost: i64,
    unfunded: i64,
    prior: PriorAdjustments,
)
    requires
        amount > 0,
        0 <= prior.unfunded <= unfunded,
        split_result(
            kind,
            amount,
            Some((UsageCharge { total_cost, unfunded_amount: Some(unfunded) })),
            prior,
        ) is Ok,
    ensures
        prior.amount + amount <= total_cost,
        prior.unfunded + split_result(
            kind,
            amount,
            Some((UsageCharge { total_cost, unfunded_amount: Some(unfunded) })),
            prior,
        )->Ok_0.0 <= unfunded,
{
}

/// The sum of what is left of each allocation, where anything is.
pub open spec fn open_in_all(allocations: Seq<OpenAllocation>) -> int
    decreases allocations.len(),
{
    if allocations.len() == 0 {
        0
    } else {
        open_in_all(allocations.drop_last()) + (if allocations.last().available > 0 {
            allocations.last().available as int
        } else {
            0
        })
    }
}

proof fn lemma_open_is_level(allocations: Seq<OpenAllocation>, n: int)
    requires
        0 <= n <= allocations.len(),
    ensures
        crate::waterfall::level(reversible(allocations), n) == open_in_all(allocations.take(n)),
    decreases n,
{
    if n > 0 {
        lemma_open_is_level(allocations, n - 1);
        assert(allocations.take(n).drop_last() =~= allocations.take(n - 1));
        assert(allocations.take(n).last() == allocations[n - 1]);
    }
}

/// An adjustment that could be split is refused only where the allocations do
/// not hold what it takes back of them.
pub proof fn law_adjustment_needs_the_funding_it_takes_back(
    kind: CreditAdjustmentKind,
    amount: i64,
    charge: Option<UsageCharge>,
    prior: PriorAdjustments,
    allocations: Seq<OpenAllocation>,
)
    ensures
        ({
            let split = split_result(kind, amount, charge, prior);
            let problem = adjustment_problem(kind, amount, charge, prior, allocations);
            &&& split is Ok ==> (problem is None <==> split->Ok_0.1 <= open_in_all(allocations))
            &&& split is Ok && split->Ok_0.1 > open_in_all(allocations) ==> problem == Some(
                crate::error::RepositoryErrorView::ValidationFailed(
                    "adjustment does not reconcile with remaining funding"@,
                ),
            )
            &&& split is Err ==> problem == Some(split->Err_0)
        }),
{
    lemma_open_is_level(allocations, allocations.len() as int);
    assert(allocations.take(allocations.len() as int) =~= allocations);
}

/// What a plan takes back of each allocation: the next part of the funded
/// amount, up to what is left of it, in the order in which the allocations come,
/// and of no other allocation.
pub proof fn law_plan_takes_back_in_order(
    kind: CreditAdjustmentKind,
    amount: i64,
    charge: Option<UsageCharge>,
    prior: PriorAdjustments,
    allocations: Seq<OpenAllocation>,
    plan: AdjustmentPlan,
    k: int,
)
    requires
        amount > 0,
        is_adjustment_plan(kind, amount, charge, prior, allocations, plan),
        0 <= k < plan.reversals@.len(),
    ensures
        ({
            let funded = amount - plan.unfunded_reversed;
            exists|at: int|
                {
                    let before = open_in_all(#[trigger] allocations.take(at));
                    let taken = plan.reversals@[k].amount;
                    &&& 0 <= at < allocations.len()
                    &&& plan.reversals@[k].allocation_id == allocations[at].id
                    &&& before < funded
                    &&& 0 < taken <= allocations[at].available
                    &&& taken == funded - before || taken == allocations[at].available
                    &&& taken <= funded - before
                }
        }),
        plan.unfunded_reversed + reversals_total(plan.reversals@) == amount,
        kind != CreditAdjustmentKind::Writeoff,
{
    let caps = reversible(allocations);
    let funded = amount - plan.unfunded_reversed;
    let n = allocations.len() as int;
    let positions = reversal_positions(allocations, funded as i64);
    crate::waterfall::law_funded_positions(caps, funded as i64 as int, n);
    let at = positions[k];
    assert(positions.contains(at));
    assert(plan.reversals@[k].allocation_id == allocations[at].id);
    lemma_open_is_level(allocations, at);
    lemma_open_is_level(allocations, at + 1);
    crate::waterfall::lemma_level_monotonic(caps, at, at + 1);
    assert(crate::waterfall::share(caps, funded, at) > 0);
    assert(0 <= at < allocations.len() && open_in_all(allocations.take(at)) < funded);
}

/// A request is checked in itself: its amount first, then that it says why and
/// under which key, then the length of the key.
pub proof fn law_requests_are_checked_in_themselves(request: CreateCreditAdjustment)
    ensures
        request_problem(request) is None <==> request.amount > 0 && !crate::text::is_blank(
            request.reason@,
        ) && !crate::text::is_blank(request.idempotency_key@) && vstd::utf8::encode_utf8(
            request.idempotency_key@,
        ).len() <= 100,
        request.amount <= 0 ==> request_problem(request) == Some(
            "adjustment amount must be positive"@,
        ),
        request.amount > 0 && (crate::text::is_blank(request.reason@) || crate::text::is_blank(
            request.idempotency_key@,
        )) ==> request_problem(request) == Some(
            "adjustment reason and idempotency key are required"@,
        ),
{
}

/// A request under a key that was used is answered with what was made then if it
/// asks for the same, and refused if it differs in anything; the charge is not
/// looked at again.
pub proof fn law_used_keys_are_replayed(
    request: CreateCreditAdjustment,
    existing: CreditAdjustment,
    charge: Option<UsageCharge>,
    prior: PriorAdjustments,
    allocations: Seq<OpenAllocation>,
)
    requires
        request_problem(request) is None,
    ensures
        creation_problem(request, true, Some(existing), charge, prior, allocations) is None <==> (
        existing.usage_id == request.usage_id && existing.usage_kind == request.usage_kind
            && existing.adjustment_kind == request.adjustment_kind && existing.amount
            == request.amount && existing.reason@ == request.reason@),
        creation_problem(request, true, Some(existing), charge, prior, allocations) is Some
            ==> creation_problem(request, true, Some(existing), charge, prior, allocations) == Some(
            crate::error::RepositoryErrorView::ValidationFailed(
                "adjustment idempotency key already exists with different data"@,
            ),
        ),
        creation_problem(request, true, None, charge, prior, allocations) == adjustment_problem(
            request.adjustment_kind,
            request.amount,
            charge,
            prior,
            allocations,
        ),
        creation_problem(request, false, Some(existing), charge, prior, allocations) == Some(
            crate::error::RepositoryErrorView::NotFound(
                "Active organization not found: "@ + crate::ids::hyphenated(request.organization_id),
            ),
        ),
{
}

/// The columns of an adjustment hold its usage under its kind.
pub proof fn law_adjusted_usage_is_stored_under_its_kind(usage_id: Uuid)
    ensures
        AdjustedUsageKind::Inference.columns(usage_id) == (Some(usage_id), None::<Uuid>),
        AdjustedUsageKind::Service.columns(usage_id) == (None::<Uuid>, Some(usage_id)),
        CreditAdjustmentKind::Correction.name() == "correction"@,
        CreditAdjustmentKind::Writeoff.name() == "writeoff"@,
{
}

/// A write-off is made wherever what is left of the charge and of its unfunded
/// part both cover it, and is then all unfunded; where the charge covers it and
/// it is refused, it is more than what is left of the unfunded part.
pub proof fn law_covered_writeoffs_are_made(
    amount: i64,
    charge: UsageCharge,
    unfunded: i64,
    prior: PriorAdjustments,
    r: Result<AdjustmentSplit, RepositoryError>,
)
    requires
        amount > 0,
        charge.unfunded_amount == Some(unfunded),
        call_ensures(
            split_adjustment,
            (CreditAdjustmentKind::Writeoff, amount, Some(charge), prior),
            r,
        ),
    ensures
        amount <= charge.total_cost - prior.amount && amount <= unfunded - prior.unfunded ==> (
        r matches Ok(split) && split.unfunded_reversed == amount && split.funded_to_reverse == 0),
        amount > charge.total_cost - prior.amount ==> (r matches Err(e) && e@
            == crate::error::RepositoryErrorView::ValidationFailed(
            "adjustment exceeds the remaining effective usage cost"@,
        )),
        amount <= charge.total_cost - prior.amount && amount > unfunded - prior.unfunded ==> (
        r matches Err(e) && e@ == crate::error::RepositoryErrorView::ValidationFailed(
            "write-off exceeds unresolved unfunded usage"@,
        )),
{
}

/// A correction is made wherever what is left of the charge covers it: of the
/// unfunded part as much as is left, and of the rest what remains.
pub proof fn law_covered_corrections_are_made(
    amount: i64,
    charge: UsageCharge,
    unfunded: i64,
    prior: PriorAdjustments,
    r: Result<AdjustmentSplit, RepositoryError>,
)
    requires
        amount > 0,
        charge.unfunded_amount == Some(unfunded),
        call_ensures(
            split_adjustment,
            (CreditAdjustmentKind::Correction, amount, Some(charge), prior),
            r,
        ),
    ensures
        amount > charge.total_cost - prior.amount ==> (r matches Err(e) && e@
            == crate::error::RepositoryErrorView::ValidationFailed(
            "adjustment exceeds the remaining effective usage cost"@,
        )),
        amount <= charge.total_cost - prior.amount ==> {
            &&& r matches Ok(split)
            &&& split.unfunded_reversed + split.funded_to_reverse == amount
            &&& amount <= unfunded - prior.unfunded ==> split.unfunded_reversed == amount
            &&& 0 <= unfunded - prior.unfunded < amount ==> split.unfunded_reversed == unfunded
                - prior.unfunded
            &&& unfunded < prior.unfunded ==> split.unfunded_reversed == 0
        },
{
}

/// A charge that is missing, or one whose funding is not known, is not adjusted.
pub proof fn law_other_charges_are_not_adjusted(
    kind: CreditAdjustmentKind,
    amount: i64,
    charge: Option<UsageCharge>,
    prior: PriorAdjustments,
    r: Result<AdjustmentSplit, RepositoryError>,
)
    requires
        call_ensures(split_adjustment, (kind, amount, charge, prior), r),
    ensures
        charge is None ==> (r matches Err(e) && e@ == crate::error::RepositoryErrorView::NotFound(
            "usage charge not found"@,
        )),
        charge matches Some(found) ==> found.unfunded_amount is None ==> (r matches Err(e) && e@
            == crate::error::RepositoryErrorView::ValidationFailed(
            "legacy usage with unknown funding cannot be adjusted"@,
        )),
{
}

/// A planned adjustment takes back exactly its amount, of the unfunded part and
/// of allocations together; it is planned wherever the charge covers it and the
/// allocations cover what is taken back of them.
pub proof fn law_covered_adjustments_are_planned(
    kind: CreditAdjustmentKind,
    amount: i64,
    charge: UsageCharge,
    unfunded: i64,
    prior: PriorAdjustments,
    allocations: Vec<OpenAllocation>,
    split: AdjustmentSplit,
    r: Result<AdjustmentPlan, RepositoryError>,
)
    requires
        amount > 0,
        charge.unfunded_amount == Some(unfunded),
        call_ensures(
            split_adjustment,
            (kind, amount, Some(charge), prior),
            Ok::<AdjustmentSplit, RepositoryError>(split),
        ),
        call_ensures(plan_adjustment, (kind, amount, Some(charge), prior, &allocations), r),
    ensures
        r is Ok <==> split.funded_to_reverse <= open_in_all(allocations@),
        r matches Ok(plan) ==> plan.unfunded_reversed == split.unfunded_reversed
            && plan.unfunded_reversed + reversals_total(plan.reversals@) == amount,
        r matches Err(e) ==> e@ == crate::error::RepositoryErrorView::ValidationFailed(
            "adjustment does not reconcile with remaining funding"@,
        ),
{
    lemma_open_is_level(allocations@, allocations@.len() as int);
    assert(allocations@.take(allocations@.len() as int) =~= allocations@);
}

/// A stored adjustment is read field by field, where its type is known and it
/// belongs to exactly one usage.
pub proof fn law_adjustments_are_read_field_by_field(
    row: CreditAdjustmentRow,
    reversals: Vec<CreditAllocationReversal>,
    r: Result<CreditAdjustment, RepositoryError>,
)
    requires
        call_ensures(load_adjustment, (row, reversals), r),
    ensures
        r matches Ok(adjustment) ==> {
            &&& adjustment.id == row.id
            &&& adjustment.organization_id == row.organization_id
            &&& adjustment.amount == row.amount
            &&& adjustment.unfunded_amount_reversed == row.unfunded_amount_reversed
            &&& adjustment.reason == row.reason
            &&& adjustment.idempotency_key == row.idempotency_key
            &&& adjustment.changed_by_user_id == row.changed_by_user_id
            &&& adjustment.changed_by_user_email == row.changed_by_user_email
            &&& adjustment.created_at == row.created_at
            &&& adjustment.allocation_reversals == reversals
            &&& adjustment.adjustment_kind.name() == row.adjustment_type@
            &&& adjustment.usage_kind.columns(adjustment.usage_id) == (
                row.inference_usage_id,
                row.service_usage_id,
            )
        },
        r is Err ==> !(exists|kind: CreditAdjustmentKind| #[trigger]
            kind.name() == row.adjustment_type@) || (row.inference_usage_id is None
            == row.service_usage_id is None),
{
}

/// An adjustment is kept only where it changed exactly one balance.
pub proof fn law_adjustments_change_one_balance(rows: u64, r: Result<(), RepositoryError>)
    requires
        call_ensures(check_balance_update, (rows,), r),
    ensures
        r is Ok <==> rows == 1,
        r matches Err(e) ==> e@ == crate::error::RepositoryErrorView::ValidationFailed(
            "adjustment does not reconcile with organization balance"@,
        ),
{
}

/// Reversals take back what is to be taken back, all of it, wherever the
/// allocations leave that much.
pub proof fn law_reversals_add_up(
    allocations: Vec<OpenAllocation>,
    funded: i64,
    r: Result<Vec<ReversalInsert>, RepositoryError>,
)
    requires
        funded >= 0,
        call_ensures(reverse_allocations, (&allocations, funded), r),
    ensures
        r is Ok <==> funded <= open_in_all(allocations@),
        r matches Ok(reversals) ==> reversals_total(reversals@) == funded,
{
    lemma_open_is_level(allocations@, allocations@.len() as int);
    assert(allocations@.take(allocations@.len() as int) =~= allocations@);
}

} // verus!

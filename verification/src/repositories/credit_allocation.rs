//! Charging usage to the credits of an organization.
//!
//! An organization has a spend limit for each type of credit. A charge is
//! funded from the types in order of priority, each up to what is left of its
//! limit and all of them together up to what is left in aggregate. What no
//! credit funds stays open and is settled, oldest first, once there is credit.
use crate::error::{not_found, validation_failed, RepositoryError};
use crate::ids::Uuid;
use crate::waterfall::{
    least, remaining_capacity, saturating_add, saturating_sub,
};
use vstd::prelude::*;
use vstd::string::StringExecFns;

verus! {

/// The order in which types of credit are used, and the version of that order.
#[derive(Debug, Clone)]
pub struct CreditAllocationPolicy {
    pub priority: Vec<String>,
    pub version: String,
}

/// The configuration of a policy.
#[derive(Debug, Clone)]
pub struct CreditAllocationConfig {
    pub priority: Vec<String>,
    pub policy_version: String,
}

impl CreditAllocationPolicy {
    /// The policy that a configuration describes.
    pub fn from_config(config: &CreditAllocationConfig) -> (r: CreditAllocationPolicy)
        ensures
            crate::text::list_view(r.priority@) == crate::text::list_view(config.priority@),
            r.version@ == config.policy_version@,
    {
        CreditAllocationPolicy {
            priority: crate::text::copy_list(&config.priority),
            version: config.policy_version.clone(),
        }
    }
}

/// The usage that an allocation belongs to.
#[derive(Debug, Clone, Copy, PartialEq, Eq, Structural)]
pub enum UsageAllocationParent {
    Inference(Uuid),
    Service(Uuid),
}

impl UsageAllocationParent {
    /// The identifier in the column of its kind of usage, and nothing in the
    /// other column.
    pub open spec fn columns(self) -> (Option<Uuid>, Option<Uuid>) {
        match self {
            UsageAllocationParent::Inference(id) => (Some(id), None),
            UsageAllocationParent::Service(id) => (None, Some(id)),
        }
    }

    /// The two columns that hold the parent: inference and service.
    pub fn parent_ids(self) -> (r: (Option<Uuid>, Option<Uuid>))
        ensures
            r == self.columns(),
    {
        match self {
            UsageAllocationParent::Inference(id) => (Some(id), None),
            UsageAllocationParent::Service(id) => (None, Some(id)),
        }
    }
}

/// When an allocation was made.
#[derive(Debug, Clone, Copy, PartialEq, Eq, Structural)]
pub enum AllocationPhase {
    /// With the charge itself.
    Posting,
    /// Later, when credit came in.
    OverageSettlement,
}

impl AllocationPhase {
    /// The name under which a phase is stored.
    pub open spec fn name(self) -> Seq<char> {
        match self {
            AllocationPhase::Posting => "posting"@,
            AllocationPhase::OverageSettlement => "overage_settlement"@,
        }
    }

    /// The name under which a phase is stored.
    pub fn as_str(&self) -> (r: &'static str)
        ensures
            r@ == self.name(),
    {
        match self {
            AllocationPhase::Posting => "posting",
            AllocationPhase::OverageSettlement => "overage_settlement",
        }
    }
}

/// The active limit of one type of credit, in order of priority.
#[derive(Debug, Clone)]
pub struct CreditLimitRow {
    pub id: Uuid,
    pub credit_type: String,
    pub source: Option<String>,
    pub spend_limit: i64,
    pub consumed: i64,
}

/// What is left of each limit.
pub open spec fn capacities(rows: Seq<CreditLimitRow>) -> Seq<int> {
    rows.map_values(|row: CreditLimitRow| crate::waterfall::capacity(row.spend_limit, row.consumed))
}

/// The sum of what is left of the first `n` limits, as far as it fits.
pub open spec fn saturated_level(rows: Seq<CreditLimitRow>, n: int) -> int
    decreases n,
{
    if n <= 0 {
        0
    } else {
        crate::waterfall::saturated(
            saturated_level(rows, n - 1) + crate::waterfall::capacity(
                rows[n - 1].spend_limit,
                rows[n - 1].consumed,
            ),
        )
    }
}

/// What all limits together still allow: the sum of what is left of each, less
/// the usage that was never attributed to a type, and never below zero.
pub open spec fn aggregate(rows: Seq<CreditLimitRow>, legacy_unattributed: i64) -> int {
    crate::waterfall::greater(
        crate::waterfall::saturated(
            saturated_level(rows, rows.len() as int) - legacy_unattributed,
        ),
        0,
    )
}

/// What all limits together still allow.
pub fn aggregate_available(rows: &Vec<CreditLimitRow>, legacy_unattributed: i64) -> (r: i64)
    ensures
        r == aggregate(rows@, legacy_unattributed),
        r >= 0,
{
    let mut total: i64 = 0;
    let mut i: usize = 0;
    while i < rows.len()
        invariant
            i <= rows.len(),
            total == saturated_level(rows@, i as int),
            total >= 0,
        decreases rows.len() - i,
    {
        let left: i64 = remaining_capacity(rows[i].spend_limit, rows[i].consumed);
        total = saturating_add(total, left);
        i = i + 1;
    }
    let less: i64 = saturating_sub(total, legacy_unattributed);
    if less < 0 {
        0
    } else {
        less
    }
}

/// One allocation to store.
#[derive(Debug, Clone)]
pub struct AllocationInsert {
    pub organization_id: Uuid,
    pub inference_usage_id: Option<Uuid>,
    pub service_usage_id: Option<Uuid>,
    pub credit_type: String,
    pub amount: i64,
    pub organization_limit_id: Uuid,
    pub source: Option<String>,
    pub policy_version: String,
    pub phase: AllocationPhase,
    pub priority_position: i16,
}

/// One allocation of a charge, as callers see it.
#[derive(Debug, Clone)]
pub struct CreditAllocation {
    pub credit_type: String,
    pub amount: i64,
    pub source: Option<String>,
    pub organization_limit_id: Option<Uuid>,
    pub policy_version: String,
}

/// What a charge stores: its allocations in order of priority, and the part
/// that stays open.
#[derive(Debug, Clone)]
pub struct AllocationPlan {
    pub inserts: Vec<AllocationInsert>,
    pub funded_amount: i64,
    pub unfunded_amount: i64,
}

/// How a charge was funded.
#[derive(Debug, Clone)]
pub struct AllocationResult {
    pub allocations: Vec<CreditAllocation>,
    pub funded_amount: i64,
    pub unfunded_amount: i64,
}

/// Whether an insert allocates `amount` of the limit at `position` to a parent.
pub open spec fn allocates(
    insert: AllocationInsert,
    organization_id: Uuid,
    parent: (Option<Uuid>, Option<Uuid>),
    version: Seq<char>,
    phase: AllocationPhase,
    row: CreditLimitRow,
    position: int,
    amount: int,
) -> bool {
    &&& insert.organization_id == organization_id
    &&& insert.inference_usage_id == parent.0
    &&& insert.service_usage_id == parent.1
    &&& insert.credit_type@ == row.credit_type@
    &&& insert.amount == amount
    &&& insert.organization_limit_id == row.id
    &&& crate::text::optional_view(insert.source) == crate::text::optional_view(row.source)
    &&& insert.policy_version@ == version
    &&& insert.phase == phase
    &&& insert.priority_position == position
}

/// The sum of the amounts of all inserts.
pub open spec fn amounts_total(inserts: Seq<AllocationInsert>) -> int
    decreases inserts.len(),
{
    if inserts.len() == 0 {
        0
    } else {
        amounts_total(inserts.drop_last()) + inserts.last().amount
    }
}

proof fn lemma_amounts_total_push(inserts: Seq<AllocationInsert>, insert: AllocationInsert)
    ensures
        amounts_total(inserts.push(insert)) == amounts_total(inserts) + insert.amount,
{
    assert(inserts.push(insert).drop_last() =~= inserts);
}

/// Reports an organization that does not exist or is not active.
pub fn lock_organization_accounting(organization_id: Uuid, row_found: bool) -> (r: Result<
    (),
    RepositoryError,
>)
    ensures
        match r {
            Ok(_) => row_found,
            Err(e) => !row_found && e@ == crate::error::RepositoryErrorView::NotFound(
                "Active organization not found: "@ + crate::ids::hyphenated(organization_id),
            ),
        },
{
    if row_found {
        Ok(())
    } else {
        let mut message = "Active organization not found: ".to_owned();
        message.append(organization_id.to_text().as_str());
        Err(not_found(message.as_str()))
    }
}

/// Rejects a charge that is negative.
pub fn check_usage_cost(total_cost: i64) -> (r: Result<(), RepositoryError>)
    ensures
        match r {
            Ok(_) => total_cost >= 0,
            Err(e) => total_cost < 0 && e@
                == crate::error::RepositoryErrorView::ValidationFailed(
                "usage cost must be non-negative"@,
            ),
        },
{
    if total_cost < 0 {
        Err(validation_failed("usage cost must be non-negative"))
    } else {
        Ok(())
    }
}

/// What can be funded of a charge before any single limit is looked at.
pub open spec fn charge_budget(
    rows: Seq<CreditLimitRow>,
    legacy_unattributed: i64,
    total_cost: i64,
) -> int {
    crate::waterfall::lesser(total_cost as int, aggregate(rows, legacy_unattributed))
}

/// The positions of the limits that fund a charge, in order.
pub open spec fn charge_positions(
    rows: Seq<CreditLimitRow>,
    legacy_unattributed: i64,
    total_cost: i64,
) -> Seq<int> {
    crate::waterfall::funded(
        capacities(rows),
        charge_budget(rows, legacy_unattributed, total_cost),
        rows.len() as int,
    )
}

/// What the limit at `position` funds of a charge.
pub open spec fn charge_share(
    rows: Seq<CreditLimitRow>,
    legacy_unattributed: i64,
    total_cost: i64,
    position: int,
) -> int {
    crate::waterfall::share(
        capacities(rows),
        charge_budget(rows, legacy_unattributed, total_cost),
        position,
    )
}

/// What all limits fund of a charge.
pub open spec fn charge_funded(
    rows: Seq<CreditLimitRow>,
    legacy_unattributed: i64,
    total_cost: i64,
) -> int {
    crate::waterfall::lesser(
        charge_budget(rows, legacy_unattributed, total_cost),
        crate::waterfall::level(capacities(rows), rows.len() as int),
    )
}

/// Whether every position in a list can be stored.
pub open spec fn positions_fit(positions: Seq<int>) -> bool {
    forall|k: int| 0 <= k < positions.len() ==> #[trigger] positions[k] <= i16::MAX
}

proof fn lemma_capacities_non_negative(rows: Seq<CreditLimitRow>)
    ensures
        crate::waterfall::non_negative(capacities(rows)),
{
}

/// Funds a charge from the limits of its organization, in order of priority.
pub fn allocate_usage(
    organization_id: Uuid,
    parent: UsageAllocationParent,
    total_cost: i64,
    policy: &CreditAllocationPolicy,
    rows: &Vec<CreditLimitRow>,
    legacy_unattributed: i64,
) -> (r: Result<AllocationPlan, RepositoryError>)
    ensures
        match r {
            Ok(plan) => {
                let positions = charge_positions(rows@, legacy_unattributed, total_cost);
                &&& total_cost >= 0
                &&& positions_fit(positions)
                &&& plan.inserts@.len() == positions.len()
                &&& forall|k: int|
                    0 <= k < positions.len() ==> allocates(
                        #[trigger] plan.inserts@[k],
                        organization_id,
                        parent.columns(),
                        policy.version@,
                        AllocationPhase::Posting,
                        rows@[positions[k]],
                        positions[k],
                        charge_share(rows@, legacy_unattributed, total_cost, positions[k]),
                    )
                &&& plan.funded_amount == charge_funded(rows@, legacy_unattributed, total_cost)
                &&& plan.unfunded_amount == total_cost - plan.funded_amount
                &&& 0 <= plan.funded_amount <= total_cost
                &&& amounts_total(plan.inserts@) == plan.funded_amount
            },
            Err(e) => e@ == (if total_cost < 0 {
                crate::error::RepositoryErrorView::ValidationFailed(
                    "usage cost must be non-negative"@,
                )
            } else {
                crate::error::RepositoryErrorView::ValidationFailed("credit priority is too long"@)
            }),
        },
        r is Ok <==> total_cost >= 0 && positions_fit(
            charge_positions(rows@, legacy_unattributed, total_cost),
        ),
{
    match check_usage_cost(total_cost) {
        Err(e) => return Err(e),
        Ok(_) => {},
    }
    let mut aggregate_left: i64 = aggregate_available(rows, legacy_unattributed);
    let mut remaining: i64 = total_cost;
    let mut inserts: Vec<AllocationInsert> = Vec::new();
    let columns = parent.parent_ids();
    let ghost caps = capacities(rows@);
    let ghost budget = charge_budget(rows@, legacy_unattributed, total_cost);
    let ghost n = rows@.len() as int;
    let mut position: usize = 0;
    proof {
        lemma_capacities_non_negative(rows@);
    }
    while position < rows.len() && remaining != 0 && aggregate_left != 0
        invariant
            position <= rows.len(),
            n == rows@.len(),
            caps == capacities(rows@),
            crate::waterfall::non_negative(caps),
            budget == charge_budget(rows@, legacy_unattributed, total_cost),
            budget == crate::waterfall::lesser(
                total_cost as int,
                aggregate(rows@, legacy_unattributed),
            ),
            total_cost >= 0,
            columns == parent.columns(),
            remaining >= 0,
            aggregate_left >= 0,
            remaining == total_cost - crate::waterfall::lesser(
                budget,
                crate::waterfall::level(caps, position as int),
            ),
            aggregate_left == aggregate(rows@, legacy_unattributed) - crate::waterfall::lesser(
                budget,
                crate::waterfall::level(caps, position as int),
            ),
            amounts_total(inserts@) == crate::waterfall::lesser(
                budget,
                crate::waterfall::level(caps, position as int),
            ),
            inserts@.len() == crate::waterfall::funded(caps, budget, position as int).len(),
            positions_fit(crate::waterfall::funded(caps, budget, position as int)),
            forall|k: int|
                0 <= k < inserts@.len() ==> allocates(
                    #[trigger] inserts@[k],
                    organization_id,
                    parent.columns(),
                    policy.version@,
                    AllocationPhase::Posting,
                    rows@[crate::waterfall::funded(caps, budget, position as int)[k]],
                    crate::waterfall::funded(caps, budget, position as int)[k],
                    charge_share(
                        rows@,
                        legacy_unattributed,
                        total_cost,
                        crate::waterfall::funded(caps, budget, position as int)[k],
                    ),
                ),
        decreases rows.len() - position,
    {
        let available: i64 = remaining_capacity(rows[position].spend_limit, rows[position].consumed);
        let amount: i64 = least(remaining, available, aggregate_left);
        proof {
            assert(caps[position as int] == available);
            crate::waterfall::lemma_level_monotonic(caps, position as int, position + 1);
            assert(amount == crate::waterfall::share(caps, budget, position as int));
        }
        if amount != 0 {
            if position > 32_767 {
                proof {
                    lemma_funded_extends(caps, budget, position + 1, n);
                    let shorter = crate::waterfall::funded(caps, budget, position + 1);
                    assert(shorter[shorter.len() - 1] == position);
                    assert(crate::waterfall::funded(caps, budget, n)[shorter.len() - 1]
                        == position);
                }
                return Err(validation_failed("credit priority is too long"));
            }
            let insert = AllocationInsert {
                organization_id,
                inference_usage_id: columns.0,
                service_usage_id: columns.1,
                credit_type: rows[position].credit_type.clone(),
                amount,
                organization_limit_id: rows[position].id,
                source: rows[position].source.clone(),
                policy_version: policy.version.clone(),
                phase: AllocationPhase::Posting,
                priority_position: position as i16,
            };
            proof {
                lemma_amounts_total_push(inserts@, insert);
            }
            inserts.push(insert);
            remaining = remaining - amount;
            aggregate_left = aggregate_left - amount;
            proof {
                let list = crate::waterfall::funded(caps, budget, position as int);
                assert(crate::waterfall::funded(caps, budget, position + 1) == list.push(
                    position as int,
                ));
            }
        }
        position = position + 1;
    }
    proof {
        if position < n {
            crate::waterfall::lemma_nothing_left(caps, budget, position as int, n);
        }
        lemma_level_at_end(caps, budget, position as int, n);
        let positions = charge_positions(rows@, legacy_unattributed, total_cost);
        assert(positions == crate::waterfall::funded(caps, budget, position as int));
        assert(positions_fit(positions));
        crate::waterfall::lemma_level_monotonic(caps, 0, n);
        assert(total_cost - remaining == charge_funded(rows@, legacy_unattributed, total_cost));
    }
    Ok(
        AllocationPlan {
            inserts,
            funded_amount: total_cost - remaining,
            unfunded_amount: remaining,
        },
    )
}

/// The funded positions below a bound are the first of all funded positions.
proof fn lemma_funded_extends(caps: Seq<int>, budget: int, i: int, n: int)
    requires
        0 <= i <= n,
    ensures
        crate::waterfall::funded(caps, budget, i).len() <= crate::waterfall::funded(
            caps,
            budget,
            n,
        ).len(),
        forall|k: int|
            0 <= k < crate::waterfall::funded(caps, budget, i).len()
                ==> #[trigger] crate::waterfall::funded(caps, budget, n)[k]
                == crate::waterfall::funded(caps, budget, i)[k],
    decreases n,
{
    if i < n {
        lemma_funded_extends(caps, budget, i, n - 1);
    }
}

/// What has been taken at the end, or once the budget is used up, is all that
/// is ever taken.
proof fn lemma_level_at_end(caps: Seq<int>, budget: int, i: int, n: int)
    requires
        crate::waterfall::non_negative(caps),
        0 <= i <= n <= caps.len(),
        i == n || budget <= crate::waterfall::level(caps, i),
    ensures
        crate::waterfall::lesser(budget, crate::waterfall::level(caps, i))
            == crate::waterfall::lesser(budget, crate::waterfall::level(caps, n)),
{
    crate::waterfall::lemma_level_monotonic(caps, i, n);
}

/// Whether an allocation is an insert as callers see it.
pub open spec fn shows(allocation: CreditAllocation, insert: AllocationInsert) -> bool {
    &&& allocation.credit_type@ == insert.credit_type@
    &&& allocation.amount == insert.amount
    &&& crate::text::optional_view(allocation.source) == crate::text::optional_view(insert.source)
    &&& allocation.organization_limit_id == Some(insert.organization_limit_id)
    &&& allocation.policy_version@ == insert.policy_version@
}

/// Ends a charge: the balance of the organization must have been updated.
pub fn complete_allocation(plan: &AllocationPlan, balance_rows_updated: u64) -> (r: Result<
    AllocationResult,
    RepositoryError,
>)
    ensures
        match r {
            Ok(result) => {
                &&& balance_rows_updated == 1
                &&& result.funded_amount == plan.funded_amount
                &&& result.unfunded_amount == plan.unfunded_amount
                &&& result.allocations@.len() == plan.inserts@.len()
                &&& forall|k: int|
                    0 <= k < plan.inserts@.len() ==> shows(
                        #[trigger] result.allocations@[k],
                        plan.inserts@[k],
                    )
            },
            Err(e) => balance_rows_updated != 1 && e@
                == crate::error::RepositoryErrorView::ValidationFailed(
                "organization accounting balance is missing"@,
            ),
        },
{
    if balance_rows_updated != 1 {
        return Err(validation_failed("organization accounting balance is missing"));
    }
    let mut allocations: Vec<CreditAllocation> = Vec::new();
    let mut i: usize = 0;
    while i < plan.inserts.len()
        invariant
            i <= plan.inserts@.len(),
            allocations@.len() == i,
            forall|k: int| 0 <= k < i ==> shows(#[trigger] allocations@[k], plan.inserts@[k]),
        decreases plan.inserts.len() - i,
    {
        let insert = &plan.inserts[i];
        allocations.push(
            CreditAllocation {
                credit_type: insert.credit_type.clone(),
                amount: insert.amount,
                source: insert.source.clone(),
                organization_limit_id: Some(insert.organization_limit_id),
                policy_version: insert.policy_version.clone(),
            },
        );
        i = i + 1;
    }
    Ok(
        AllocationResult {
            allocations,
            funded_amount: plan.funded_amount,
            unfunded_amount: plan.unfunded_amount,
        },
    )
}

/// A charge that is not fully funded, oldest first.
#[derive(Debug, Clone)]
pub struct UsageDebt {
    /// `inference` or `service`.
    pub usage_kind: String,
    pub usage_id: Uuid,
    pub outstanding: i64,
}

impl UsageDebt {
    /// The identifier in the column of its kind of usage.
    pub open spec fn columns(self) -> (Option<Uuid>, Option<Uuid>) {
        (
            if self.usage_kind@ == "inference"@ {
                Some(self.usage_id)
            } else {
                None
            },
            if self.usage_kind@ == "service"@ {
                Some(self.usage_id)
            } else {
                None
            },
        )
    }

    fn parent_ids(&self) -> (r: (Option<Uuid>, Option<Uuid>))
        ensures
            r == self.columns(),
    {
        (
            if crate::text::same_text(self.usage_kind.as_str(), "inference") {
                Some(self.usage_id)
            } else {
                None
            },
            if crate::text::same_text(self.usage_kind.as_str(), "service") {
                Some(self.usage_id)
            } else {
                None
            },
        )
    }
}

/// What is open of each charge.
pub open spec fn outstandings(debts: Seq<UsageDebt>) -> Seq<int> {
    debts.map_values(|debt: UsageDebt| debt.outstanding as int)
}

/// What a settlement stores, and how much it settles.
#[derive(Debug, Clone)]
pub struct SettlementPlan {
    pub inserts: Vec<AllocationInsert>,
    pub settled: i64,
}

/// What can be settled before any single charge or limit is looked at.
pub open spec fn settlement_budget(
    rows: Seq<CreditLimitRow>,
    legacy_unattributed: i64,
    unresolved: i64,
) -> int {
    crate::waterfall::lesser(unresolved as int, aggregate(rows, legacy_unattributed))
}

/// The pairs of a charge and a limit between which something is settled, by
/// charge and then by limit.
pub open spec fn settlement_pairs(
    rows: Seq<CreditLimitRow>,
    legacy_unattributed: i64,
    unresolved: i64,
    debts: Seq<UsageDebt>,
) -> Seq<(int, int)> {
    crate::waterfall::matched(
        capacities(rows),
        outstandings(debts),
        settlement_budget(rows, legacy_unattributed, unresolved),
        debts.len() as int,
        0,
    )
}

/// What is settled of one charge from one limit.
pub open spec fn settlement_share(
    rows: Seq<CreditLimitRow>,
    legacy_unattributed: i64,
    unresolved: i64,
    debts: Seq<UsageDebt>,
    pair: (int, int),
) -> int {
    crate::waterfall::overlap(
        capacities(rows),
        outstandings(debts),
        settlement_budget(rows, legacy_unattributed, unresolved),
        pair.0,
        pair.1,
    )
}

/// What is settled in all.
pub open spec fn settlement_total(
    rows: Seq<CreditLimitRow>,
    legacy_unattributed: i64,
    unresolved: i64,
    debts: Seq<UsageDebt>,
) -> int {
    crate::waterfall::settled(
        capacities(rows),
        outstandings(debts),
        settlement_budget(rows, legacy_unattributed, unresolved),
        debts.len() as int,
    )
}

/// Whether the limits can be used for a settlement: the position of each fits.
pub open spec fn priority_fits(rows: Seq<CreditLimitRow>) -> bool {
    rows.len() <= 32_768
}

/// Whether an insert settles a share of a charge from a limit.
pub open spec fn settles(
    insert: AllocationInsert,
    organization_id: Uuid,
    version: Seq<char>,
    rows: Seq<CreditLimitRow>,
    legacy_unattributed: i64,
    unresolved: i64,
    debts: Seq<UsageDebt>,
    pair: (int, int),
) -> bool {
    allocates(
        insert,
        organization_id,
        debts[pair.0].columns(),
        version,
        AllocationPhase::OverageSettlement,
        rows[pair.1],
        pair.1,
        settlement_share(rows, legacy_unattributed, unresolved, debts, pair),
    )
}

/// Whether the inserts settle exactly the listed pairs, in order.
pub open spec fn settles_all(
    inserts: Seq<AllocationInsert>,
    organization_id: Uuid,
    version: Seq<char>,
    rows: Seq<CreditLimitRow>,
    legacy_unattributed: i64,
    unresolved: i64,
    debts: Seq<UsageDebt>,
    pairs: Seq<(int, int)>,
) -> bool {
    &&& inserts.len() == pairs.len()
    &&& forall|k: int|
        0 <= k < pairs.len() ==> settles(
            #[trigger] inserts[k],
            organization_id,
            version,
            rows,
            legacy_unattributed,
            unresolved,
            debts,
            pairs[k],
        )
}

/// Applies credit to charges that are not fully funded: the oldest charge
/// first, each from the limits in order of priority. Where nothing is open
/// nothing is looked at; where nothing is left in aggregate nothing is settled.
pub fn settle_unfunded_usage(
    organization_id: Uuid,
    policy: &CreditAllocationPolicy,
    unresolved: i64,
    rows: &Vec<CreditLimitRow>,
    legacy_unattributed: i64,
    debts: &Vec<UsageDebt>,
) -> (r: Result<SettlementPlan, RepositoryError>)
    requires
        unresolved >= 0,
        forall|j: int| 0 <= j < debts@.len() ==> (#[trigger] debts@[j]).outstanding > 0,
    ensures
        match r {
            Ok(plan) => {
                &&& unresolved == 0 || priority_fits(rows@)
                &&& settles_all(
                    plan.inserts@,
                    organization_id,
                    policy.version@,
                    rows@,
                    legacy_unattributed,
                    unresolved,
                    debts@,
                    settlement_pairs(rows@, legacy_unattributed, unresolved, debts@),
                )
                &&& plan.settled == settlement_total(rows@, legacy_unattributed, unresolved, debts@)
                &&& 0 <= plan.settled <= unresolved
                &&& amounts_total(plan.inserts@) == plan.settled
            },
            Err(e) => e@ == crate::error::RepositoryErrorView::ValidationFailed(
                "credit priority is too long"@,
            ),
        },
        r is Err <==> unresolved != 0 && !priority_fits(rows@),
{
    let ghost caps = capacities(rows@);
    let ghost owed = outstandings(debts@);
    let ghost budget = settlement_budget(rows@, legacy_unattributed, unresolved);
    let ghost n = rows@.len() as int;
    let ghost m = debts@.len() as int;
    let ghost ceiling = aggregate(rows@, legacy_unattributed);
    proof {
        lemma_capacities_non_negative(rows@);
        assert(crate::waterfall::non_negative(owed)) by {
            assert forall|j: int| 0 <= j < owed.len() implies #[trigger] owed[j] >= 0 by {
                assert(debts@[j].outstanding > 0);
            }
        }
        crate::waterfall::lemma_levels_sorted(caps);
        crate::waterfall::lemma_levels_sorted(owed);
    }
    if unresolved == 0 {
        proof {
            crate::waterfall::lemma_matched_ends(caps, owed, budget, 0, m);
            assert(crate::waterfall::level(owed, m) >= 0);
            assert(crate::waterfall::level(caps, n) >= 0);
        }
        return Ok(SettlementPlan { inserts: Vec::new(), settled: 0 });
    }
    if rows.len() > 32_768 {
        return Err(validation_failed("credit priority is too long"));
    }
    let mut left: Vec<i64> = Vec::new();
    let mut k: usize = 0;
    while k < rows.len()
        invariant
            k <= rows@.len(),
            n == rows@.len(),
            caps == capacities(rows@),
            crate::waterfall::non_negative(caps),
            left@.len() == k,
            forall|x: int| 0 <= x < k ==> #[trigger] left@[x] == caps[x],
        decreases rows.len() - k,
    {
        left.push(remaining_capacity(rows[k].spend_limit, rows[k].consumed));
        k = k + 1;
    }
    let mut aggregate_left: i64 = aggregate_available(rows, legacy_unattributed);
    if aggregate_left == 0 {
        proof {
            crate::waterfall::lemma_matched_ends(caps, owed, budget, 0, m);
            assert(crate::waterfall::level(owed, m) >= 0);
            assert(crate::waterfall::level(caps, n) >= 0);
        }
        return Ok(SettlementPlan { inserts: Vec::new(), settled: 0 });
    }
    let mut remaining_debt: i64 = unresolved;
    let mut settled: i64 = 0;
    let mut inserts: Vec<AllocationInsert> = Vec::new();
    let mut j: usize = 0;
    proof {
        assert forall|x: int| 0 <= x < n implies #[trigger] left@[x]
            == crate::waterfall::left_of(caps, 0, x) by {
            assert(0 <= crate::waterfall::level(caps, x) <= crate::waterfall::level(caps, x + 1));
        }
        assert(0 <= crate::waterfall::level(caps, n));
    }
    while j < debts.len() && remaining_debt != 0 && aggregate_left != 0
        invariant
            j <= debts@.len(),
            n == rows@.len(),
            m == debts@.len(),
            n <= 32_768,
            caps == capacities(rows@),
            owed == outstandings(debts@),
            ceiling == aggregate(rows@, legacy_unattributed),
            budget == settlement_budget(rows@, legacy_unattributed, unresolved),
            budget == crate::waterfall::lesser(unresolved as int, ceiling),
            unresolved >= 0,
            ceiling >= 0,
            crate::waterfall::non_negative(caps),
            crate::waterfall::non_negative(owed),
            forall|x: int| 0 <= x < debts@.len() ==> (#[trigger] debts@[x]).outstanding > 0,
            settled == crate::waterfall::settled(caps, owed, budget, j as int),
            settled >= 0,
            amounts_total(inserts@) == settled,
            remaining_debt == unresolved - settled,
            aggregate_left == ceiling - settled,
            left@.len() == n,
            forall|x: int|
                0 <= x < n ==> #[trigger] left@[x] == crate::waterfall::left_of(
                    caps,
                    settled as int,
                    x,
                ),
            settles_all(
                inserts@,
                organization_id,
                policy.version@,
                rows@,
                legacy_unattributed,
                unresolved,
                debts@,
                crate::waterfall::matched(caps, owed, budget, j as int, 0),
            ),
        decreases debts.len() - j,
    {
        let columns = debts[j].parent_ids();
        let debt: i64 = debts[j].outstanding;
        let mut outstanding: i64 = if debt <= remaining_debt {
            debt
        } else {
            remaining_debt
        };
        let ghost base = settled as int;
        let ghost lower = crate::waterfall::level(owed, j as int);
        let ghost upper = crate::waterfall::level(owed, j + 1);
        let ghost top = crate::waterfall::level(caps, n);
        let mut i: usize = 0;
        proof {
            crate::waterfall::lemma_levels_sorted(caps);
            crate::waterfall::lemma_levels_sorted(owed);
            assert(owed[j as int] == debt);
            assert(debts@[j as int].outstanding > 0);
            assert(upper == lower + debt);
            assert(0 <= lower);
            assert(0 <= crate::waterfall::level(caps, 0) <= top);
        }
        while i < rows.len() && outstanding != 0 && aggregate_left != 0
            invariant
                i <= rows@.len(),
                j < debts@.len(),
                n == rows@.len(),
                m == debts@.len(),
                n <= 32_768,
                caps == capacities(rows@),
                owed == outstandings(debts@),
                ceiling == aggregate(rows@, legacy_unattributed),
                budget == settlement_budget(rows@, legacy_unattributed, unresolved),
                budget == crate::waterfall::lesser(unresolved as int, ceiling),
                crate::waterfall::non_negative(caps),
                crate::waterfall::non_negative(owed),
                columns == debts@[j as int].columns(),
                lower == crate::waterfall::level(owed, j as int),
                upper == crate::waterfall::level(owed, j + 1),
                top == crate::waterfall::level(caps, n),
                0 <= lower < upper,
                0 <= base < budget,
                base == lower || (base == top && top < lower),
                base <= settled <= unresolved,
                amounts_total(inserts@) == settled,
                settled <= ceiling,
                remaining_debt == unresolved - settled,
                aggregate_left == ceiling - settled,
                0 <= outstanding,
                base == lower ==> outstanding == crate::waterfall::lesser(upper, unresolved as int)
                    - settled,
                base == top && top < lower ==> settled == top,
                settled == crate::waterfall::greater(
                    base,
                    crate::waterfall::lesser(
                        crate::waterfall::lesser(budget, upper),
                        crate::waterfall::level(caps, i as int),
                    ),
                ),
                left@.len() == n,
                forall|x: int|
                    0 <= x < n ==> #[trigger] left@[x] == crate::waterfall::left_of(
                        caps,
                        settled as int,
                        x,
                    ),
                settles_all(
                    inserts@,
                    organization_id,
                    policy.version@,
                    rows@,
                    legacy_unattributed,
                    unresolved,
                    debts@,
                    crate::waterfall::matched(caps, owed, budget, j as int, i as int),
                ),
            decreases rows.len() - i,
        {
            let amount: i64 = least(outstanding, left[i], aggregate_left);
            proof {
                crate::waterfall::lemma_levels_sorted(caps);
                assert(0 <= crate::waterfall::level(caps, i as int) <= crate::waterfall::level(
                    caps,
                    i + 1,
                ) <= top);
                assert(amount == crate::waterfall::overlap(caps, owed, budget, j as int, i as int));
            }
            if amount != 0 {
                let insert = AllocationInsert {
                    organization_id,
                    inference_usage_id: columns.0,
                    service_usage_id: columns.1,
                    credit_type: rows[i].credit_type.clone(),
                    amount,
                    organization_limit_id: rows[i].id,
                    source: rows[i].source.clone(),
                    policy_version: policy.version.clone(),
                    phase: AllocationPhase::OverageSettlement,
                    priority_position: i as i16,
                };
                proof {
                    lemma_amounts_total_push(inserts@, insert);
                }
                inserts.push(insert);
                let still: i64 = left[i] - amount;
                left.set(i, still);
                outstanding = outstanding - amount;
                aggregate_left = aggregate_left - amount;
                remaining_debt = remaining_debt - amount;
                settled = settled + amount;
                proof {
                    assert(crate::waterfall::matched(caps, owed, budget, j as int, i + 1)
                        == crate::waterfall::matched(caps, owed, budget, j as int, i as int).push(
                        (j as int, i as int),
                    ));
                    assert forall|x: int| 0 <= x < n implies #[trigger] left@[x]
                        == crate::waterfall::left_of(caps, settled as int, x) by {
                        assert(crate::waterfall::level(caps, x) <= crate::waterfall::level(
                            caps,
                            x + 1,
                        ));
                        if x < i {
                            assert(crate::waterfall::level(caps, x + 1) <= crate::waterfall::level(
                                caps,
                                i as int,
                            ));
                        } else if x > i {
                            assert(crate::waterfall::level(caps, i + 1) <= crate::waterfall::level(
                                caps,
                                x,
                            ));
                        }
                    }
                }
            }
            i = i + 1;
        }
        proof {
            crate::waterfall::lemma_levels_sorted(caps);
            assert forall|x: int| i <= x < n implies #[trigger] crate::waterfall::overlap(
                caps,
                owed,
                budget,
                j as int,
                x,
            ) == 0 by {
                assert(crate::waterfall::level(caps, i as int) <= crate::waterfall::level(caps, x));
                assert(crate::waterfall::level(caps, x + 1) <= top);
            }
            crate::waterfall::lemma_matched_row_ends(caps, owed, budget, j as int, i as int);
            assert(crate::waterfall::level(caps, i as int) <= top);
        }
        j = j + 1;
    }
    proof {
        if j < m {
            crate::waterfall::lemma_levels_sorted(owed);
            crate::waterfall::lemma_matched_ends(caps, owed, budget, j as int, m);
            assert(crate::waterfall::level(owed, j as int) <= crate::waterfall::level(owed, m));
        }
    }
    Ok(SettlementPlan { inserts, settled })
}

/// Ends a settlement: where something was settled, the balance of the
/// organization must have been updated.
pub fn complete_settlement(plan: &SettlementPlan, balance_rows_updated: u64) -> (r: Result<
    i64,
    RepositoryError,
>)
    ensures
        match r {
            Ok(settled) => settled == plan.settled,
            Err(e) => e@ == crate::error::RepositoryErrorView::ValidationFailed(
                "overage settlement does not reconcile with organization balance"@,
            ),
        },
        r is Err <==> plan.settled > 0 && balance_rows_updated != 1,
{
    if plan.settled > 0 && balance_rows_updated != 1 {
        Err(
            validation_failed("overage settlement does not reconcile with organization balance"),
        )
    } else {
        Ok(plan.settled)
    }
}

/// No limit funds more of a charge than is left of it, and all limits together
/// fund no more than they allow in aggregate.
pub proof fn law_charge_stays_within_limits(
    rows: Seq<CreditLimitRow>,
    legacy_unattributed: i64,
    total_cost: i64,
    position: int,
)
    requires
        total_cost >= 0,
        0 <= position < rows.len(),
    ensures
        0 <= charge_share(rows, legacy_unattributed, total_cost, position)
            <= crate::waterfall::capacity(rows[position].spend_limit, rows[position].consumed),
        0 <= charge_funded(rows, legacy_unattributed, total_cost) <= aggregate(
            rows,
            legacy_unattributed,
        ),
{
    let caps = capacities(rows);
    let budget = charge_budget(rows, legacy_unattributed, total_cost);
    crate::waterfall::law_share_within_capacity(caps, budget, position);
    crate::waterfall::lemma_level_monotonic(caps, 0, rows.len() as int);
}

/// A type of credit funds a charge only once every type of higher priority has
/// given all that is left of it.
pub proof fn law_priority_is_kept(
    rows: Seq<CreditLimitRow>,
    legacy_unattributed: i64,
    total_cost: i64,
    higher: int,
    lower: int,
)
    requires
        total_cost >= 0,
        0 <= higher < lower < rows.len(),
        charge_share(rows, legacy_unattributed, total_cost, lower) > 0,
    ensures
        charge_share(rows, legacy_unattributed, total_cost, higher) == crate::waterfall::capacity(
            rows[higher].spend_limit,
            rows[higher].consumed,
        ),
{
    crate::waterfall::law_earlier_capacities_fill_first(
        capacities(rows),
        charge_budget(rows, legacy_unattributed, total_cost),
        higher,
        lower,
    );
}

/// A charge stays open only where the limits allow no more, either together or
/// each by itself.
pub proof fn law_nothing_stays_open_needlessly(
    rows: Seq<CreditLimitRow>,
    legacy_unattributed: i64,
    total_cost: i64,
)
    requires
        total_cost >= 0,
        charge_funded(rows, legacy_unattributed, total_cost) < total_cost,
    ensures
        charge_funded(rows, legacy_unattributed, total_cost) == aggregate(rows, legacy_unattributed)
            || charge_funded(rows, legacy_unattributed, total_cost) == crate::waterfall::level(
            capacities(rows),
            rows.len() as int,
        ),
{
}

/// A settlement settles no more of a charge than is open, takes no more from a
/// limit than is left of it, and no more than the limits allow in aggregate.
pub proof fn law_settlement_stays_within_limits(
    rows: Seq<CreditLimitRow>,
    legacy_unattributed: i64,
    unresolved: i64,
    debts: Seq<UsageDebt>,
    j: int,
    i: int,
)
    requires
        unresolved >= 0,
        forall|k: int| 0 <= k < debts.len() ==> (#[trigger] debts[k]).outstanding > 0,
        0 <= j < debts.len(),
        0 <= i < rows.len(),
    ensures
        0 <= crate::waterfall::debt_total(
            capacities(rows),
            outstandings(debts),
            settlement_budget(rows, legacy_unattributed, unresolved),
            j,
            rows.len() as int,
        ) <= debts[j].outstanding,
        0 <= crate::waterfall::capacity_total(
            capacities(rows),
            outstandings(debts),
            settlement_budget(rows, legacy_unattributed, unresolved),
            i,
            debts.len() as int,
        ) <= crate::waterfall::capacity(rows[i].spend_limit, rows[i].consumed),
        settlement_total(rows, legacy_unattributed, unresolved, debts) <= aggregate(
            rows,
            legacy_unattributed,
        ),
{
    let caps = capacities(rows);
    let owed = outstandings(debts);
    let budget = settlement_budget(rows, legacy_unattributed, unresolved);
    assert forall|k: int| 0 <= k < owed.len() implies #[trigger] owed[k] >= 0 by {
        assert(debts[k].outstanding > 0);
    }
    crate::waterfall::law_debts_are_met_in_order(caps, owed, budget, j);
    crate::waterfall::law_capacity_is_not_exceeded(caps, owed, budget, i);
}

/// A charge is settled only once every older charge is settled in full.
pub proof fn law_oldest_charge_is_settled_first(
    rows: Seq<CreditLimitRow>,
    legacy_unattributed: i64,
    unresolved: i64,
    debts: Seq<UsageDebt>,
    older: int,
    newer: int,
)
    requires
        unresolved >= 0,
        forall|k: int| 0 <= k < debts.len() ==> (#[trigger] debts[k]).outstanding > 0,
        0 <= older < newer < debts.len(),
        crate::waterfall::debt_total(
            capacities(rows),
            outstandings(debts),
            settlement_budget(rows, legacy_unattributed, unresolved),
            newer,
            rows.len() as int,
        ) > 0,
    ensures
        crate::waterfall::debt_total(
            capacities(rows),
            outstandings(debts),
            settlement_budget(rows, legacy_unattributed, unresolved),
            older,
            rows.len() as int,
        ) == debts[older].outstanding,
{
    let caps = capacities(rows);
    let owed = outstandings(debts);
    assert forall|k: int| 0 <= k < owed.len() implies #[trigger] owed[k] >= 0 by {
        assert(debts[k].outstanding > 0);
    }
    crate::waterfall::law_oldest_debts_are_met_first(
        caps,
        owed,
        settlement_budget(rows, legacy_unattributed, unresolved),
        older,
        newer,
    );
}

/// The sum of what is left of each limit, counted exactly.
pub open spec fn left_in_all(rows: Seq<CreditLimitRow>) -> int
    decreases rows.len(),
{
    if rows.len() == 0 {
        0
    } else {
        left_in_all(rows.drop_last()) + (if rows.last().spend_limit > rows.last().consumed {
            rows.last().spend_limit - rows.last().consumed
        } else {
            0
        })
    }
}

/// The sum of what is open of each charge, counted exactly.
pub open spec fn open_in_all(debts: Seq<UsageDebt>) -> int
    decreases debts.len(),
{
    if debts.len() == 0 {
        0
    } else {
        open_in_all(debts.drop_last()) + debts.last().outstanding
    }
}

proof fn lemma_left_grows(rows: Seq<CreditLimitRow>, n: int)
    requires
        0 <= n <= rows.len(),
    ensures
        0 <= left_in_all(rows.take(n)) <= left_in_all(rows),
    decreases rows.len(),
{
    if n < rows.len() {
        assert(rows.drop_last().take(n) =~= rows.take(n));
        lemma_left_grows(rows.drop_last(), n);
    } else {
        assert(rows.take(n) =~= rows);
        if n > 0 {
            assert(rows.drop_last().take(n - 1) =~= rows.drop_last());
            lemma_left_grows(rows.drop_last(), n - 1);
        }
    }
}

/// Where what is left fits, levels and sums agree.
proof fn lemma_levels_are_sums(rows: Seq<CreditLimitRow>, n: int)
    requires
        0 <= n <= rows.len(),
        left_in_all(rows) <= i64::MAX,
    ensures
        crate::waterfall::level(capacities(rows), n) == left_in_all(rows.take(n)),
        saturated_level(rows, n) == left_in_all(rows.take(n)),
    decreases n,
{
    lemma_left_grows(rows, n);
    if n > 0 {
        lemma_levels_are_sums(rows, n - 1);
        lemma_left_grows(rows, n - 1);
        assert(rows.take(n).drop_last() =~= rows.take(n - 1));
        assert(rows.take(n).last() == rows[n - 1]);
    }
}

proof fn lemma_debts_are_sums(debts: Seq<UsageDebt>, n: int)
    requires
        0 <= n <= debts.len(),
    ensures
        crate::waterfall::level(outstandings(debts), n) == open_in_all(debts.take(n)),
    decreases n,
{
    if n > 0 {
        lemma_debts_are_sums(debts, n - 1);
        assert(debts.take(n).drop_last() =~= debts.take(n - 1));
        assert(debts.take(n).last() == debts[n - 1]);
    }
}

/// Together the limits allow the sum of what is left of each, less the usage
/// that was never attributed, however many limits there are; never less than
/// nothing.
pub proof fn law_available_is_what_is_left_less_legacy(
    rows: Seq<CreditLimitRow>,
    legacy_unattributed: i64,
)
    requires
        left_in_all(rows) <= i64::MAX,
        left_in_all(rows) - legacy_unattributed <= i64::MAX,
    ensures
        left_in_all(rows) >= legacy_unattributed ==> aggregate(rows, legacy_unattributed)
            == left_in_all(rows) - legacy_unattributed,
        left_in_all(rows) < legacy_unattributed ==> aggregate(rows, legacy_unattributed) == 0,
{
    lemma_levels_are_sums(rows, rows.len() as int);
    lemma_left_grows(rows, rows.len() as int);
    assert(rows.take(rows.len() as int) =~= rows);
}

/// Every unit of usage that was never attributed lowers what is available by
/// one, until nothing is available.
pub proof fn law_legacy_usage_lowers_what_is_available(
    rows: Seq<CreditLimitRow>,
    legacy_unattributed: i64,
    more: i64,
)
    requires
        legacy_unattributed >= 0,
        more >= 0,
        legacy_unattributed + more <= i64::MAX,
    ensures
        aggregate(rows, legacy_unattributed) >= more ==> aggregate(
            rows,
            (legacy_unattributed + more) as i64,
        ) == aggregate(rows, legacy_unattributed) - more,
        aggregate(rows, legacy_unattributed) < more ==> aggregate(
            rows,
            (legacy_unattributed + more) as i64,
        ) == 0,
{
    lemma_saturated_level_in_range(rows, rows.len() as int);
}

proof fn lemma_saturated_level_in_range(rows: Seq<CreditLimitRow>, n: int)
    requires
        0 <= n <= rows.len(),
    ensures
        0 <= saturated_level(rows, n) <= i64::MAX,
    decreases n,
{
    if n > 0 {
        lemma_saturated_level_in_range(rows, n - 1);
    }
}

/// What is funded of a charge is the charge itself, or else all that the limits
/// leave less the usage that was never attributed.
pub proof fn law_charge_is_funded_as_far_as_credit_goes(
    rows: Seq<CreditLimitRow>,
    legacy_unattributed: i64,
    total_cost: i64,
)
    requires
        total_cost >= 0,
        legacy_unattributed >= 0,
        left_in_all(rows) <= i64::MAX,
    ensures
        total_cost <= left_in_all(rows) - legacy_unattributed ==> charge_funded(
            rows,
            legacy_unattributed,
            total_cost,
        ) == total_cost,
        0 <= left_in_all(rows) - legacy_unattributed < total_cost ==> charge_funded(
            rows,
            legacy_unattributed,
            total_cost,
        ) == left_in_all(rows) - legacy_unattributed,
        left_in_all(rows) < legacy_unattributed ==> charge_funded(
            rows,
            legacy_unattributed,
            total_cost,
        ) == 0,
{
    law_available_is_what_is_left_less_legacy(rows, legacy_unattributed);
    lemma_levels_are_sums(rows, rows.len() as int);
    lemma_left_grows(rows, rows.len() as int);
    assert(rows.take(rows.len() as int) =~= rows);
}

/// Of a charge, each limit funds what the limits before it do not reach, up to
/// what is left of it and of what is funded in all.
pub proof fn law_each_limit_funds_the_next_part(
    rows: Seq<CreditLimitRow>,
    legacy_unattributed: i64,
    total_cost: i64,
    position: int,
)
    requires
        total_cost >= 0,
        legacy_unattributed >= 0,
        left_in_all(rows) <= i64::MAX,
        0 <= position < rows.len(),
    ensures
        ({
            let funded = charge_funded(rows, legacy_unattributed, total_cost);
            let before = left_in_all(rows.take(position));
            let through = left_in_all(rows.take(position + 1));
            let part = charge_share(rows, legacy_unattributed, total_cost, position);
            &&& funded <= before ==> part == 0
            &&& before <= funded <= through ==> part == funded - before
            &&& through <= funded ==> part == through - before
        }),
{
    let n = rows.len() as int;
    lemma_levels_are_sums(rows, position);
    lemma_levels_are_sums(rows, position + 1);
    lemma_levels_are_sums(rows, n);
    assert(rows.take(n) =~= rows);
    lemma_left_grows(rows, position);
    lemma_left_grows(rows, position + 1);
    lemma_left_grows(rows.take(position + 1), position);
    assert(rows.take(position + 1).take(position) =~= rows.take(position));
}

/// A charge is stored as one allocation for each limit that funds a part of it,
/// in order of priority.
pub proof fn law_funding_limits_are_listed_in_order(
    rows: Seq<CreditLimitRow>,
    legacy_unattributed: i64,
    total_cost: i64,
)
    ensures
        ({
            let positions = charge_positions(rows, legacy_unattributed, total_cost);
            &&& forall|k: int| 0 <= k < positions.len() ==> 0 <= #[trigger] positions[k] < rows.len()
            &&& forall|k: int, l: int|
                0 <= k < l < positions.len() ==> #[trigger] positions[k] < #[trigger] positions[l]
            &&& forall|i: int|
                0 <= i < rows.len() ==> (positions.contains(i) <==> #[trigger] charge_share(
                    rows,
                    legacy_unattributed,
                    total_cost,
                    i,
                ) > 0)
        }),
{
    let budget = charge_budget(rows, legacy_unattributed, total_cost);
    crate::waterfall::law_funded_positions(capacities(rows), budget, rows.len() as int);
    assert forall|i: int| 0 <= i < rows.len() implies (charge_positions(
        rows,
        legacy_unattributed,
        total_cost,
    ).contains(i) <==> #[trigger] charge_share(rows, legacy_unattributed, total_cost, i) > 0) by {
        assert(crate::waterfall::share(capacities(rows), budget, i) == charge_share(
            rows,
            legacy_unattributed,
            total_cost,
            i,
        ));
    }
}

/// A charge is refused for the length of its priority only where a limit that
/// funds a part of it lies past the last position that can be stored.
pub proof fn law_only_far_limits_are_refused(positions: Seq<int>)
    ensures
        positions_fit(positions) <==> forall|k: int|
            0 <= k < positions.len() ==> #[trigger] positions[k] <= 32_767,
{
}

/// An allocation names the organization, the usage in the column of its kind,
/// and the limit it takes from, with that limit's type and source, at the
/// limit's place in the priority.
pub proof fn law_allocation_names_its_limit(
    insert: AllocationInsert,
    organization_id: Uuid,
    parent: UsageAllocationParent,
    version: Seq<char>,
    phase: AllocationPhase,
    row: CreditLimitRow,
    position: int,
    amount: int,
)
    requires
        allocates(insert, organization_id, parent.columns(), version, phase, row, position, amount),
    ensures
        insert.organization_id == organization_id,
        parent matches UsageAllocationParent::Inference(id) ==> insert.inference_usage_id == Some(id)
            && insert.service_usage_id is None,
        parent matches UsageAllocationParent::Service(id) ==> insert.service_usage_id == Some(id)
            && insert.inference_usage_id is None,
        insert.credit_type@ == row.credit_type@,
        insert.amount == amount,
        insert.organization_limit_id == row.id,
        insert.source is Some <==> row.source is Some,
        insert.source is Some ==> insert.source->0@ == row.source->0@,
        insert.policy_version@ == version,
        insert.phase == phase,
        insert.priority_position == position,
{
}

/// What callers see of an allocation is what was stored.
pub proof fn law_shown_allocation_is_the_stored_one(
    allocation: CreditAllocation,
    insert: AllocationInsert,
)
    requires
        shows(allocation, insert),
    ensures
        allocation.amount == insert.amount,
        allocation.credit_type@ == insert.credit_type@,
        allocation.organization_limit_id == Some(insert.organization_limit_id),
        allocation.policy_version@ == insert.policy_version@,
        allocation.source is Some <==> insert.source is Some,
        allocation.source is Some ==> allocation.source->0@ == insert.source->0@,
{
}

/// A phase is stored under a name of its own.
pub proof fn law_phases_have_their_names()
    ensures
        AllocationPhase::Posting.name() == "posting"@,
        AllocationPhase::OverageSettlement.name() == "overage_settlement"@,
{
}

/// A settlement settles the whole open amount, or else all the charges, or else
/// all that the limits leave less the usage that was never attributed: whichever
/// is the least, and nothing stays open beyond that.
pub proof fn law_settlement_goes_as_far_as_credit_goes(
    rows: Seq<CreditLimitRow>,
    legacy_unattributed: i64,
    unresolved: i64,
    debts: Seq<UsageDebt>,
)
    requires
        unresolved >= 0,
        legacy_unattributed >= 0,
        left_in_all(rows) <= i64::MAX,
        forall|k: int| 0 <= k < debts.len() ==> (#[trigger] debts[k]).outstanding > 0,
    ensures
        ({
            let settled = settlement_total(rows, legacy_unattributed, unresolved, debts);
            let left = left_in_all(rows) - legacy_unattributed;
            &&& left <= 0 ==> settled == 0
            &&& left > 0 ==> settled <= left && settled <= unresolved && settled <= open_in_all(debts)
            &&& left > 0 ==> settled == left || settled == unresolved || settled == open_in_all(
                debts,
            )
        }),
{
    law_available_is_what_is_left_less_legacy(rows, legacy_unattributed);
    lemma_levels_are_sums(rows, rows.len() as int);
    lemma_left_grows(rows, rows.len() as int);
    assert(rows.take(rows.len() as int) =~= rows);
    lemma_debts_are_sums(debts, debts.len() as int);
    assert(debts.take(debts.len() as int) =~= debts);
    let owed = outstandings(debts);
    assert forall|k: int| 0 <= k < owed.len() implies #[trigger] owed[k] >= 0 by {
        assert(debts[k].outstanding > 0);
    }
    crate::waterfall::lemma_level_monotonic(owed, 0, owed.len() as int);
}

/// What one charge takes from one limit is the stretch that both cover, with
/// charges and limits laid end to end, each in its order, up to what is settled
/// in all.
pub proof fn law_charges_take_from_limits_in_order(
    rows: Seq<CreditLimitRow>,
    legacy_unattributed: i64,
    unresolved: i64,
    debts: Seq<UsageDebt>,
    j: int,
    i: int,
)
    requires
        unresolved >= 0,
        legacy_unattributed >= 0,
        left_in_all(rows) <= i64::MAX,
        forall|k: int| 0 <= k < debts.len() ==> (#[trigger] debts[k]).outstanding > 0,
        0 <= j < debts.len(),
        0 <= i < rows.len(),
    ensures
        ({
            let settled = settlement_total(rows, legacy_unattributed, unresolved, debts);
            let taken = settlement_share(rows, legacy_unattributed, unresolved, debts, (j, i));
            let debt_start = open_in_all(debts.take(j));
            let debt_end = open_in_all(debts.take(j + 1));
            let limit_start = left_in_all(rows.take(i));
            let limit_end = left_in_all(rows.take(i + 1));
            forall|at: int|
                (#[trigger] unit_is_taken(at, taken, debt_start, limit_start)) <==> debt_start <= at
                    < debt_end && limit_start <= at < limit_end && at < settled
        }),
{
    let n = rows.len() as int;
    let m = debts.len() as int;
    lemma_levels_are_sums(rows, i);
    lemma_levels_are_sums(rows, i + 1);
    lemma_levels_are_sums(rows, n);
    lemma_debts_are_sums(debts, j);
    lemma_debts_are_sums(debts, j + 1);
    lemma_debts_are_sums(debts, m);
    let caps = capacities(rows);
    let owed = outstandings(debts);
    assert forall|k: int| 0 <= k < owed.len() implies #[trigger] owed[k] >= 0 by {
        assert(debts[k].outstanding > 0);
    }
    crate::waterfall::lemma_level_monotonic(caps, i, i + 1);
    crate::waterfall::lemma_level_monotonic(caps, i + 1, n);
    crate::waterfall::lemma_level_monotonic(owed, j, j + 1);
    crate::waterfall::lemma_level_monotonic(owed, j + 1, m);
}

/// Whether a unit lies in a stretch of a length that begins where both a charge
/// and a limit have begun.
pub open spec fn unit_is_taken(at: int, length: int, debt_start: int, limit_start: int) -> bool {
    if debt_start <= limit_start {
        limit_start <= at < limit_start + length
    } else {
        debt_start <= at < debt_start + length
    }
}

/// A settlement is stored as one allocation for each charge and limit between
/// which something is settled: by charge, and for one charge by limit.
pub proof fn law_settled_pairs_are_listed_in_order(
    rows: Seq<CreditLimitRow>,
    legacy_unattributed: i64,
    unresolved: i64,
    debts: Seq<UsageDebt>,
)
    ensures
        ({
            let pairs = settlement_pairs(rows, legacy_unattributed, unresolved, debts);
            &&& forall|k: int|
                0 <= k < pairs.len() ==> 0 <= (#[trigger] pairs[k]).0 < debts.len() && 0 <= pairs[k].1
                    < rows.len()
            &&& forall|k: int, l: int|
                0 <= k < l < pairs.len() ==> (#[trigger] pairs[k]).0 < (#[trigger] pairs[l]).0 || (
                pairs[k].0 == pairs[l].0 && pairs[k].1 < pairs[l].1)
            &&& forall|j: int, i: int|
                0 <= j < debts.len() && 0 <= i < rows.len() ==> (pairs.contains((j, i))
                    <==> #[trigger] settlement_share(
                    rows,
                    legacy_unattributed,
                    unresolved,
                    debts,
                    (j, i),
                ) > 0)
        }),
{
    let caps = capacities(rows);
    let owed = outstandings(debts);
    let budget = settlement_budget(rows, legacy_unattributed, unresolved);
    let pairs = settlement_pairs(rows, legacy_unattributed, unresolved, debts);
    crate::waterfall::law_matched_pairs(caps, owed, budget, debts.len() as int, 0);
    assert forall|j: int, i: int| 0 <= j < debts.len() && 0 <= i < rows.len() implies (
    pairs.contains((j, i)) <==> #[trigger] settlement_share(
        rows,
        legacy_unattributed,
        unresolved,
        debts,
        (j, i),
    ) > 0) by {
        assert(crate::waterfall::overlap(caps, owed, budget, j, i) == settlement_share(
            rows,
            legacy_unattributed,
            unresolved,
            debts,
            (j, i),
        ));
    }
}

/// What is settled is stored for the charge it belongs to, in the column of its
/// kind, and taken from the limit that gave it.
pub proof fn law_settled_part_names_its_charge(
    insert: AllocationInsert,
    organization_id: Uuid,
    version: Seq<char>,
    rows: Seq<CreditLimitRow>,
    legacy_unattributed: i64,
    unresolved: i64,
    debts: Seq<UsageDebt>,
    pair: (int, int),
)
    requires
        settles(
            insert,
            organization_id,
            version,
            rows,
            legacy_unattributed,
            unresolved,
            debts,
            pair,
        ),
    ensures
        debts[pair.0].usage_kind@ == "inference"@ ==> insert.inference_usage_id == Some(
            debts[pair.0].usage_id,
        ) && insert.service_usage_id is None,
        debts[pair.0].usage_kind@ == "service"@ ==> insert.service_usage_id == Some(
            debts[pair.0].usage_id,
        ) && insert.inference_usage_id is None,
        insert.organization_id == organization_id,
        insert.organization_limit_id == rows[pair.1].id,
        insert.credit_type@ == rows[pair.1].credit_type@,
        insert.priority_position == pair.1,
        insert.phase == AllocationPhase::OverageSettlement,
        insert.policy_version@ == version,
        insert.amount == settlement_share(rows, legacy_unattributed, unresolved, debts, pair),
{
    reveal_strlit("inference");
    reveal_strlit("service");
    assert("inference"@.len() == 9 && "service"@.len() == 7);
}

/// A settlement is refused only where there are more limits than positions.
pub proof fn law_settlement_takes_every_priority_that_can_be_stored(rows: Seq<CreditLimitRow>)
    ensures
        priority_fits(rows) <==> rows.len() - 1 <= i16::MAX,
{
}

proof fn lemma_levels_reach_the_sum(rows: Seq<CreditLimitRow>, n: int)
    requires
        0 <= n <= rows.len(),
    ensures
        0 <= left_in_all(rows.take(n)),
        crate::waterfall::level(capacities(rows), n) <= left_in_all(rows.take(n)),
        left_in_all(rows.take(n)) <= i64::MAX ==> crate::waterfall::level(capacities(rows), n)
            == left_in_all(rows.take(n)) && saturated_level(rows, n) == left_in_all(rows.take(n)),
        left_in_all(rows.take(n)) > i64::MAX ==> crate::waterfall::level(capacities(rows), n)
            >= i64::MAX && saturated_level(rows, n) == i64::MAX,
    decreases n,
{
    if n > 0 {
        lemma_levels_reach_the_sum(rows, n - 1);
        assert(rows.take(n).drop_last() =~= rows.take(n - 1));
        assert(rows.take(n).last() == rows[n - 1]);
        lemma_capacities_non_negative(rows);
        crate::waterfall::lemma_level_monotonic(capacities(rows), n - 1, n);
    }
}

/// Together the limits allow the sum of what is left of each, or the largest
/// number where that sum is larger, less the usage that was never attributed; for
/// any number of limits, and never below zero.
pub proof fn law_every_limit_and_all_legacy_usage_count(
    rows: Vec<CreditLimitRow>,
    legacy_unattributed: i64,
    r: i64,
)
    requires
        call_ensures(aggregate_available, (&rows, legacy_unattributed), r),
    ensures
        ({
            let all = left_in_all(rows@);
            let held = if all <= i64::MAX {
                all
            } else {
                i64::MAX as int
            };
            &&& held <= legacy_unattributed ==> r == 0
            &&& 0 <= held - legacy_unattributed <= i64::MAX ==> r == held - legacy_unattributed
            &&& held - legacy_unattributed > i64::MAX ==> r == i64::MAX
        }),
{
    lemma_levels_reach_the_sum(rows@, rows@.len() as int);
    assert(rows@.take(rows@.len() as int) =~= rows@);
}

/// What a charge is funded with is the least of three amounts: the charge, what
/// is available in all, and what is left of the limits. The allocations add up to
/// it, and the rest of the charge stays unfunded.
pub proof fn law_charge_is_funded_with_the_least(
    organization_id: Uuid,
    parent: UsageAllocationParent,
    total_cost: i64,
    policy: CreditAllocationPolicy,
    rows: Vec<CreditLimitRow>,
    legacy_unattributed: i64,
    available: i64,
    plan: AllocationPlan,
)
    requires
        call_ensures(aggregate_available, (&rows, legacy_unattributed), available),
        call_ensures(
            allocate_usage,
            (organization_id, parent, total_cost, &policy, &rows, legacy_unattributed),
            Ok::<AllocationPlan, RepositoryError>(plan),
        ),
    ensures
        plan.funded_amount <= total_cost,
        plan.funded_amount <= available,
        plan.funded_amount <= left_in_all(rows@),
        plan.funded_amount == total_cost || plan.funded_amount == available || plan.funded_amount
            == left_in_all(rows@),
        plan.funded_amount + plan.unfunded_amount == total_cost,
        amounts_total(plan.inserts@) == plan.funded_amount,
{
    lemma_levels_reach_the_sum(rows@, rows@.len() as int);
    assert(rows@.take(rows@.len() as int) =~= rows@);
}

/// What is settled is the least of four amounts: what is open in all, the sum of
/// the charges, what is available in all, and what is left of the limits. Credit
/// that covers only a part of what is open is used for that part.
pub proof fn law_the_least_is_settled(
    organization_id: Uuid,
    policy: CreditAllocationPolicy,
    unresolved: i64,
    rows: Vec<CreditLimitRow>,
    legacy_unattributed: i64,
    debts: Vec<UsageDebt>,
    available: i64,
    plan: SettlementPlan,
)
    requires
        forall|k: int| 0 <= k < debts@.len() ==> (#[trigger] debts@[k]).outstanding > 0,
        call_ensures(aggregate_available, (&rows, legacy_unattributed), available),
        call_ensures(
            settle_unfunded_usage,
            (organization_id, &policy, unresolved, &rows, legacy_unattributed, &debts),
            Ok::<SettlementPlan, RepositoryError>(plan),
        ),
    ensures
        plan.settled <= unresolved,
        plan.settled <= available,
        plan.settled <= open_in_all(debts@),
        plan.settled <= left_in_all(rows@),
        plan.settled == unresolved || plan.settled == available || plan.settled == open_in_all(
            debts@,
        ) || plan.settled == left_in_all(rows@),
        amounts_total(plan.inserts@) == plan.settled,
{
    lemma_levels_reach_the_sum(rows@, rows@.len() as int);
    assert(rows@.take(rows@.len() as int) =~= rows@);
    lemma_debts_are_sums(debts@, debts@.len() as int);
    assert(debts@.take(debts@.len() as int) =~= debts@);
}

/// Amounts add up one by one.
pub proof fn law_amounts_add_up(inserts: Seq<AllocationInsert>, insert: AllocationInsert)
    ensures
        amounts_total(seq![]) == 0,
        amounts_total(inserts.push(insert)) == amounts_total(inserts) + insert.amount,
{
    lemma_amounts_total_push(inserts, insert);
}

/// A settlement is refused only for limits that are too many to be numbered, and
/// not even then where nothing is open; a charge only where it is negative, or
/// where a limit that would fund it is too far down to be numbered.
pub proof fn law_refusals_have_their_reason(
    organization_id: Uuid,
    parent: UsageAllocationParent,
    policy: CreditAllocationPolicy,
    amount: i64,
    rows: Vec<CreditLimitRow>,
    legacy_unattributed: i64,
    debts: Vec<UsageDebt>,
    charged: Result<AllocationPlan, RepositoryError>,
    settled: Result<SettlementPlan, RepositoryError>,
)
    requires
        call_ensures(
            allocate_usage,
            (organization_id, parent, amount, &policy, &rows, legacy_unattributed),
            charged,
        ),
        call_ensures(
            settle_unfunded_usage,
            (organization_id, &policy, amount, &rows, legacy_unattributed, &debts),
            settled,
        ),
    ensures
        settled is Err <==> amount != 0 && rows@.len() > 32_768,
        amount < 0 ==> (charged matches Err(e) && e@
            == crate::error::RepositoryErrorView::ValidationFailed(
            "usage cost must be non-negative"@,
        )),
        amount >= 0 && rows@.len() <= 32_768 ==> charged is Ok,
        amount >= 0 ==> (charged matches Err(e) ==> e@
            == crate::error::RepositoryErrorView::ValidationFailed("credit priority is too long"@)),
        settled matches Err(e) ==> e@ == crate::error::RepositoryErrorView::ValidationFailed(
            "credit priority is too long"@,
        ),
{
    let n = rows@.len() as int;
    let positions = charge_positions(rows@, legacy_unattributed, amount);
    crate::waterfall::law_funded_positions(
        capacities(rows@),
        charge_budget(rows@, legacy_unattributed, amount),
        n,
    );
    assert forall|k: int| 0 <= k < positions.len() && n <= 32_768 implies #[trigger] positions[k]
        <= i16::MAX by {}
}

/// What was planned is answered as it is, once one balance was changed; a
/// settlement of nothing needs no balance.
pub proof fn law_plans_are_answered_once_booked(
    plan: AllocationPlan,
    settlement: SettlementPlan,
    rows: u64,
    charged: Result<AllocationResult, RepositoryError>,
    settled: Result<i64, RepositoryError>,
)
    requires
        call_ensures(complete_allocation, (&plan, rows), charged),
        call_ensures(complete_settlement, (&settlement, rows), settled),
    ensures
        charged is Ok <==> rows == 1,
        charged matches Ok(result) ==> result.funded_amount == plan.funded_amount
            && result.unfunded_amount == plan.unfunded_amount && result.allocations@.len()
            == plan.inserts@.len(),
        rows == 1 || settlement.settled <= 0 ==> settled == Ok::<i64, RepositoryError>(
            settlement.settled,
        ),
        rows != 1 && settlement.settled > 0 ==> settled is Err,
{
}

/// A settlement stores one part for each pair of a charge and a limit that has
/// one, in the order of the pairs, and no other part.
pub proof fn law_a_settlement_stores_every_part(
    inserts: Seq<AllocationInsert>,
    organization_id: Uuid,
    version: Seq<char>,
    rows: Seq<CreditLimitRow>,
    legacy_unattributed: i64,
    unresolved: i64,
    debts: Seq<UsageDebt>,
    pairs: Seq<(int, int)>,
    k: int,
)
    requires
        settles_all(
            inserts,
            organization_id,
            version,
            rows,
            legacy_unattributed,
            unresolved,
            debts,
            pairs,
        ),
        0 <= k < pairs.len(),
    ensures
        inserts.len() == pairs.len(),
        settles(
            inserts[k],
            organization_id,
            version,
            rows,
            legacy_unattributed,
            unresolved,
            debts,
            pairs[k],
        ),
{
    assert(settles(
        inserts[k],
        organization_id,
        version,
        rows,
        legacy_unattributed,
        unresolved,
        debts,
        pairs[k],
    ));
}

} // verus!

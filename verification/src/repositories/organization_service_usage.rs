//! The usage of services and what it costs.
use crate::error::{validation_failed, RepositoryError};
use crate::ids::Uuid;
use crate::repositories::credit_allocation::{CreditAllocation, UsageAllocationParent};
use crate::time::Timestamp;
use vstd::prelude::*;

verus! {

/// A use of a service to record.
#[derive(Debug, Clone, Copy, PartialEq, Eq, Structural)]
pub struct RecordServiceUsageRequest {
    pub organization_id: Uuid,
    pub workspace_id: Uuid,
    pub api_key_id: Uuid,
    pub service_id: Uuid,
    pub quantity: i32,
    pub total_cost: i64,
    pub inference_id: Option<Uuid>,
}

/// A recorded use of a service, as it is stored.
#[derive(Debug, Clone)]
pub struct ServiceUsageRow {
    pub id: Uuid,
    pub organization_id: Uuid,
    pub workspace_id: Uuid,
    pub api_key_id: Uuid,
    pub service_id: Uuid,
    pub quantity: i32,
    pub total_cost: i64,
    /// The cost less what was given back, where the row has it.
    pub effective_total_cost: Option<i64>,
    pub inference_id: Option<Uuid>,
    pub created_at: Timestamp,
    pub funded_amount: Option<i64>,
    pub allocation_policy_version: Option<String>,
}

/// A recorded use of a service.
#[derive(Debug, Clone)]
pub struct OrganizationServiceUsageLog {
    pub id: Uuid,
    pub organization_id: Uuid,
    pub workspace_id: Uuid,
    pub api_key_id: Uuid,
    pub service_id: Uuid,
    pub quantity: i32,
    pub total_cost: i64,
    pub inference_id: Option<Uuid>,
    pub created_at: Timestamp,
    pub credit_allocations: Option<Vec<CreditAllocation>>,
    pub funded_amount: Option<i64>,
    pub unfunded_amount: Option<i64>,
    pub allocation_policy_version: Option<String>,
}

/// Whether recorded usage is what a request asks to record.
pub open spec fn same_billable_data(
    request: RecordServiceUsageRequest,
    existing: ServiceUsageRow,
) -> bool {
    &&& existing.workspace_id == request.workspace_id
    &&& existing.api_key_id == request.api_key_id
    &&& existing.service_id == request.service_id
    &&& existing.quantity == request.quantity
    &&& existing.total_cost == request.total_cost
}

/// What happened while usage was recorded.
#[derive(Debug, Clone)]
pub enum RecordEvent {
    /// The accounting of the organization is locked.
    Locked,
    /// The usage was stored under a new identifier.
    Inserted(Uuid),
    /// Usage of the same inference was there already.
    Duplicate,
    /// That usage was read.
    Existing(ServiceUsageRow),
}

/// What to do next.
#[derive(Debug, Clone, Copy, PartialEq, Eq, Structural)]
pub enum RecordAction {
    /// Store the usage, unless that of the same inference is there.
    Insert,
    /// Allocate credit for the cost, add it to what the organization has
    /// spent, and commit.
    Allocate { parent: UsageAllocationParent, cost: i64 },
    /// Undo everything and read the usage of the same inference.
    RollBackAndRead { organization_id: Uuid, inference_id: Option<Uuid> },
    /// Report the usage that was there, with its allocations.
    LoadAllocations(UsageAllocationParent),
    /// Report the usage that was there; it never had allocations.
    ReportExisting,
}

/// Decides how recording usage goes on. Usage of one inference is recorded and
/// charged once: where it is there already it must be the same usage.
pub fn record_usage(request: &RecordServiceUsageRequest, event: &RecordEvent) -> (r: Result<
    RecordAction,
    RepositoryError,
>)
    ensures
        match *event {
            RecordEvent::Locked => r == Ok::<RecordAction, RepositoryError>(RecordAction::Insert),
            RecordEvent::Inserted(id) => r == Ok::<RecordAction, RepositoryError>(
                RecordAction::Allocate {
                    parent: UsageAllocationParent::Service(id),
                    cost: request.total_cost,
                },
            ),
            RecordEvent::Duplicate => r == Ok::<RecordAction, RepositoryError>(
                RecordAction::RollBackAndRead {
                    organization_id: request.organization_id,
                    inference_id: request.inference_id,
                },
            ),
            RecordEvent::Existing(existing) => match r {
                Ok(action) => {
                    &&& same_billable_data(*request, existing)
                    &&& action == (if existing.funded_amount is Some {
                        RecordAction::LoadAllocations(UsageAllocationParent::Service(existing.id))
                    } else {
                        RecordAction::ReportExisting
                    })
                },
                Err(e) => !same_billable_data(*request, existing) && e@
                    == crate::error::RepositoryErrorView::ValidationFailed(
                    "service usage id already exists with different billable data"@,
                ),
            },
        },
{
    match event {
        RecordEvent::Locked => Ok(RecordAction::Insert),
        RecordEvent::Inserted(id) => Ok(
            RecordAction::Allocate {
                parent: UsageAllocationParent::Service(*id),
                cost: request.total_cost,
            },
        ),
        RecordEvent::Duplicate => Ok(
            RecordAction::RollBackAndRead {
                organization_id: request.organization_id,
                inference_id: request.inference_id,
            },
        ),
        RecordEvent::Existing(existing) => {
            if existing.workspace_id != request.workspace_id || existing.api_key_id
                != request.api_key_id || existing.service_id != request.service_id
                || existing.quantity != request.quantity || existing.total_cost
                != request.total_cost {
                return Err(
                    validation_failed(
                        "service usage id already exists with different billable data",
                    ),
                );
            }
            match existing.funded_amount {
                Some(_) => Ok(
                    RecordAction::LoadAllocations(UsageAllocationParent::Service(existing.id)),
                ),
                None => Ok(RecordAction::ReportExisting),
            }
        },
    }
}

/// The sum of allocated amounts.
pub open spec fn allocated(allocations: Seq<CreditAllocation>) -> int
    decreases allocations.len(),
{
    if allocations.len() == 0 {
        0
    } else {
        allocated(allocations.drop_last()) + allocations.last().amount
    }
}

/// The sum of the amounts of usage that may have no allocations.
pub open spec fn allocated_in(allocations: Option<Vec<CreditAllocation>>) -> int {
    match allocations {
        Some(list) => allocated(list@),
        None => 0,
    }
}

/// Whether the amounts add up without leaving the range, and so does what is
/// left of the cost.
pub open spec fn funding_fits(allocations: Option<Vec<CreditAllocation>>, total_cost: i64) -> bool {
    &&& allocations matches Some(list) ==> forall|i: int|
        0 <= i <= list@.len() ==> i64::MIN <= #[trigger] allocated(list@.take(i)) <= i64::MAX
    &&& i64::MIN <= total_cost - allocated_in(allocations) <= i64::MAX
}

/// How usage is funded: what is allocated to it, and what is left of its cost,
/// which together are the cost.
/// Nothing is known of usage from before credit was allocated.
pub fn effective_funding(
    funded_amount: Option<i64>,
    allocations: &Option<Vec<CreditAllocation>>,
    total_cost: i64,
) -> (r: (Option<i64>, Option<i64>))
    requires
        funded_amount is Some ==> funding_fits(*allocations, total_cost),
    ensures
        funded_amount is None ==> r == (None::<i64>, None::<i64>),
        funded_amount is Some ==> {
            &&& r.0 matches Some(funded) && funded == allocated_in(*allocations)
            &&& r.1 matches Some(unfunded) && unfunded == total_cost - allocated_in(*allocations)
            &&& r.0->0 + r.1->0 == total_cost
        },
{
    if funded_amount.is_none() {
        return (None, None);
    }
    let mut funded: i64 = 0;
    match allocations {
        None => {},
        Some(list) => {
            let mut i: usize = 0;
            assert(list@.take(0) =~= seq![]);
            while i < list.len()
                invariant
                    i <= list@.len(),
                    funded == allocated(list@.take(i as int)),
                    forall|k: int|
                        0 <= k <= list@.len() ==> i64::MIN <= #[trigger] allocated(list@.take(k))
                            <= i64::MAX,
                decreases list.len() - i,
            {
                proof {
                    assert(list@.take(i + 1).drop_last() =~= list@.take(i as int));
                    assert(i64::MIN <= allocated(list@.take(i + 1)) <= i64::MAX);
                }
                funded = funded + list[i].amount;
                i = i + 1;
            }
            assert(list@.take(list@.len() as int) =~= list@);
        },
    }
    (Some(funded), Some(total_cost - funded))
}

/// The cost of usage: less what was given back, where that is known.
pub open spec fn current_cost(row: ServiceUsageRow) -> i64 {
    match row.effective_total_cost {
        Some(cost) => cost,
        None => row.total_cost,
    }
}

/// Reads recorded usage, with its allocations where it has any.
pub fn row_to_log(row: ServiceUsageRow, allocations: Option<Vec<CreditAllocation>>) -> (r:
    OrganizationServiceUsageLog)
    requires
        row.funded_amount is Some ==> funding_fits(allocations, current_cost(row)),
    ensures
        r.id == row.id,
        r.organization_id == row.organization_id,
        r.workspace_id == row.workspace_id,
        r.api_key_id == row.api_key_id,
        r.service_id == row.service_id,
        r.quantity == row.quantity,
        r.total_cost == current_cost(row),
        r.inference_id == row.inference_id,
        r.created_at == row.created_at,
        r.credit_allocations == allocations,
        row.funded_amount is None ==> r.funded_amount is None && r.unfunded_amount is None,
        row.funded_amount is Some ==> {
            &&& r.funded_amount matches Some(funded) && funded == allocated_in(allocations)
            &&& r.unfunded_amount matches Some(unfunded) && unfunded == current_cost(row)
                - allocated_in(allocations)
        },
        r.allocation_policy_version == row.allocation_policy_version,
{
    let total_cost: i64 = match row.effective_total_cost {
        Some(cost) => cost,
        None => row.total_cost,
    };
    let (funded_amount, unfunded_amount) = effective_funding(
        row.funded_amount,
        &allocations,
        total_cost,
    );
    OrganizationServiceUsageLog {
        id: row.id,
        organization_id: row.organization_id,
        workspace_id: row.workspace_id,
        api_key_id: row.api_key_id,
        service_id: row.service_id,
        quantity: row.quantity,
        total_cost,
        inference_id: row.inference_id,
        created_at: row.created_at,
        credit_allocations: allocations,
        funded_amount,
        unfunded_amount,
        allocation_policy_version: row.allocation_policy_version,
    }
}

/// Reports a range of time that ends before it begins.
pub fn check_reporting_range(start_time: Option<Timestamp>, end_time: Option<Timestamp>) -> (r:
    Result<(), String>)
    requires
        start_time matches Some(start) ==> start.well_formed(),
        end_time matches Some(end) ==> end.well_formed(),
    ensures
        match r {
            Ok(_) => start_time is Some && end_time is Some ==> start_time->0.instant()
                <= end_time->0.instant(),
            Err(message) => {
                &&& start_time is Some
                &&& end_time is Some
                &&& end_time->0.instant() < start_time->0.instant()
                &&& message@ == "invalid reporting date range"@
            },
        },
{
    match (start_time, end_time) {
        (Some(start), Some(end)) => if end.is_before(&start) {
            Err("invalid reporting date range".to_owned())
        } else {
            Ok(())
        },
        _ => Ok(()),
    }
}

/// Usage is the same only where nothing that is billed differs.
pub proof fn law_same_usage_bills_the_same(
    request: RecordServiceUsageRequest,
    existing: ServiceUsageRow,
)
    ensures
        same_billable_data(request, existing) <==> existing.workspace_id == request.workspace_id
            && existing.api_key_id == request.api_key_id && existing.service_id
            == request.service_id && existing.quantity == request.quantity && existing.total_cost
            == request.total_cost,
{
}

/// Every allocation counts with its amount, and usage without allocations has
/// nothing allocated.
pub proof fn law_every_allocation_counts(
    allocations: Seq<CreditAllocation>,
    allocation: CreditAllocation,
    list: Vec<CreditAllocation>,
)
    ensures
        allocated(seq![]) == 0,
        allocated(allocations.push(allocation)) == allocated(allocations) + allocation.amount,
        allocated_in(None) == 0,
        allocated_in(Some(list)) == allocated(list@),
{
    assert(allocations.push(allocation).drop_last() =~= allocations);
}

/// Usage costs what it costs after adjustments, where that is known, and
/// otherwise what it was recorded with.
pub proof fn law_adjusted_cost_counts(row: ServiceUsageRow)
    ensures
        row.effective_total_cost is Some ==> current_cost(row) == row.effective_total_cost->0,
        row.effective_total_cost is None ==> current_cost(row) == row.total_cost,
{
}

/// New usage is stored, then funded at its cost; usage that was there is undone,
/// read and reported, where it bills the same, and refused where it does not.
pub proof fn law_usage_is_recorded_once(
    request: RecordServiceUsageRequest,
    event: RecordEvent,
    id: Uuid,
    existing: ServiceUsageRow,
    r: Result<RecordAction, RepositoryError>,
)
    requires
        call_ensures(record_usage, (&request, &event), r),
    ensures
        event == RecordEvent::Locked ==> r == Ok::<RecordAction, RepositoryError>(
            RecordAction::Insert,
        ),
        event == RecordEvent::Inserted(id) ==> r == Ok::<RecordAction, RepositoryError>(
            RecordAction::Allocate {
                parent: UsageAllocationParent::Service(id),
                cost: request.total_cost,
            },
        ),
        event == RecordEvent::Duplicate ==> r == Ok::<RecordAction, RepositoryError>(
            RecordAction::RollBackAndRead {
                organization_id: request.organization_id,
                inference_id: request.inference_id,
            },
        ),
        event == RecordEvent::Existing(existing) ==> (r is Ok <==> existing.workspace_id
            == request.workspace_id && existing.api_key_id == request.api_key_id
            && existing.service_id == request.service_id && existing.quantity == request.quantity
            && existing.total_cost == request.total_cost),
        event == RecordEvent::Existing(existing) ==> r is Ok ==> (r->Ok_0
            == RecordAction::ReportExisting <==> existing.funded_amount is None),
        r matches Err(e) ==> e@ == crate::error::RepositoryErrorView::ValidationFailed(
            "service usage id already exists with different billable data"@,
        ),
{
}

/// What is funded and what is not add up to the cost; usage that was never
/// allocated has neither.
pub proof fn law_funding_adds_up_to_the_cost(
    funded_amount: Option<i64>,
    allocations: Vec<CreditAllocation>,
    total_cost: i64,
    r: (Option<i64>, Option<i64>),
)
    requires
        call_ensures(effective_funding, (funded_amount, &Some(allocations), total_cost), r),
    ensures
        r.0 is Some <==> funded_amount is Some,
        r.1 is Some <==> funded_amount is Some,
        r.0 matches Some(funded) ==> funded == allocated(allocations@),
        r.0 is Some ==> r.0->0 + r.1->0 == total_cost,
{
}

/// A log shows the usage as it is stored, at its cost after adjustments.
pub proof fn law_logs_show_their_usage(
    row: ServiceUsageRow,
    allocations: Option<Vec<CreditAllocation>>,
    r: OrganizationServiceUsageLog,
)
    requires
        call_ensures(row_to_log, (row, allocations), r),
    ensures
        r.id == row.id,
        r.organization_id == row.organization_id,
        r.workspace_id == row.workspace_id,
        r.api_key_id == row.api_key_id,
        r.service_id == row.service_id,
        r.quantity == row.quantity,
        r.inference_id == row.inference_id,
        r.created_at == row.created_at,
        r.credit_allocations == allocations,
        row.effective_total_cost matches Some(cost) ==> r.total_cost == cost,
        row.effective_total_cost is None ==> r.total_cost == row.total_cost,
        r.funded_amount is Some <==> row.funded_amount is Some,
        r.funded_amount matches Some(funded) ==> r.unfunded_amount matches Some(unfunded)
            ==> funded + unfunded == r.total_cost,
{
}

/// A range of dates is refused exactly where it ends before it begins.
pub proof fn law_ranges_end_after_they_begin(
    start: Timestamp,
    end: Timestamp,
    r: Result<(), String>,
    open: Result<(), String>,
)
    requires
        start.well_formed(),
        end.well_formed(),
        call_ensures(check_reporting_range, (Some(start), Some(end)), r),
        call_ensures(check_reporting_range, (Some(start), None::<Timestamp>), open),
    ensures
        r is Err <==> end.seconds < start.seconds || (end.seconds == start.seconds && end.nanos
            < start.nanos),
        r matches Err(message) ==> message@ == "invalid reporting date range"@,
        open is Ok,
{
    crate::time::law_instants_are_ordered(end, start);
}

} // verus!

//! A summary of the usage of services.
use crate::error::RepositoryError;
use crate::ids::Uuid;
use crate::sort::{sort_by_keys, CostKey, NamedCostKey, TextKey};
use crate::text::same_text;
use vstd::prelude::*;
use vstd::string::StringExecFns;

verus! {

/// One row of the grouped usage: the dimension by which it is grouped, and the
/// sums over its group. Of the four columns that follow the dimension only that
/// of the dimension is set.
#[derive(Debug, Clone)]
pub struct SummaryRow {
    pub dimension: String,
    pub workspace_id: Option<Uuid>,
    pub api_key_id: Option<Uuid>,
    pub service_name: Option<String>,
    pub day: Option<String>,
    pub usage_count: i64,
    pub quantity: i64,
    pub total_cost: i64,
}

#[derive(Debug, Clone, Copy, PartialEq, Eq, Structural)]
pub struct ServiceUsageTotals {
    pub usage_count: i64,
    pub total_cost_nano_usd: i64,
}

#[derive(Debug, Clone, Copy, PartialEq, Eq, Structural)]
pub struct ServiceWorkspaceSummary {
    pub workspace_id: Uuid,
    pub usage_count: i64,
    pub total_cost_nano_usd: i64,
}

#[derive(Debug, Clone, Copy, PartialEq, Eq, Structural)]
pub struct ServiceApiKeySummary {
    pub api_key_id: Uuid,
    pub usage_count: i64,
    pub total_cost_nano_usd: i64,
}

#[derive(Debug, Clone)]
pub struct ServiceNameSummary {
    pub service_name: String,
    pub usage_count: i64,
    pub quantity: i64,
    pub total_cost_nano_usd: i64,
}

#[derive(Debug, Clone)]
pub struct ServiceDaySummary {
    pub day: String,
    pub usage_count: i64,
    pub total_cost_nano_usd: i64,
}

#[derive(Debug, Clone)]
pub struct ServiceUsageSummary {
    pub totals: ServiceUsageTotals,
    pub by_workspace: Vec<ServiceWorkspaceSummary>,
    pub by_api_key: Vec<ServiceApiKeySummary>,
    pub by_service: Vec<ServiceNameSummary>,
    pub by_day: Vec<ServiceDaySummary>,
}

/// What is wrong with a row, if anything: its dimension is not known, or the
/// column of its dimension is not set.
pub open spec fn row_fault(row: SummaryRow) -> Option<Seq<char>> {
    if row.dimension@ == "totals"@ {
        None
    } else if row.dimension@ == "workspace"@ {
        if row.workspace_id is None {
            Some("missing workspace_id"@)
        } else {
            None
        }
    } else if row.dimension@ == "api_key"@ {
        if row.api_key_id is None {
            Some("missing api_key_id"@)
        } else {
            None
        }
    } else if row.dimension@ == "service"@ {
        if row.service_name is None {
            Some("missing service_name"@)
        } else {
            None
        }
    } else if row.dimension@ == "day"@ {
        if row.day is None {
            Some("missing day"@)
        } else {
            None
        }
    } else {
        Some("unknown service summary dimension: "@ + row.dimension@)
    }
}

/// The sums over all usage: those of the last row that is not grouped.
pub open spec fn totals_of(rows: Seq<SummaryRow>) -> ServiceUsageTotals
    decreases rows.len(),
{
    if rows.len() == 0 {
        ServiceUsageTotals { usage_count: 0, total_cost_nano_usd: 0 }
    } else if rows.last().dimension@ == "totals"@ {
        ServiceUsageTotals {
            usage_count: rows.last().usage_count,
            total_cost_nano_usd: rows.last().total_cost,
        }
    } else {
        totals_of(rows.drop_last())
    }
}

/// The rows of one dimension.
pub open spec fn of_dimension(rows: Seq<SummaryRow>, dimension: Seq<char>) -> Seq<SummaryRow> {
    rows.filter(|row: SummaryRow| row.dimension@ == dimension)
}

pub open spec fn workspace_summary(row: SummaryRow) -> ServiceWorkspaceSummary {
    ServiceWorkspaceSummary {
        workspace_id: row.workspace_id->0,
        usage_count: row.usage_count,
        total_cost_nano_usd: row.total_cost,
    }
}

pub open spec fn api_key_summary(row: SummaryRow) -> ServiceApiKeySummary {
    ServiceApiKeySummary {
        api_key_id: row.api_key_id->0,
        usage_count: row.usage_count,
        total_cost_nano_usd: row.total_cost,
    }
}

pub open spec fn service_summary(row: SummaryRow) -> ServiceNameSummary {
    ServiceNameSummary {
        service_name: row.service_name->0,
        usage_count: row.usage_count,
        quantity: row.quantity,
        total_cost_nano_usd: row.total_cost,
    }
}

pub open spec fn day_summary(row: SummaryRow) -> ServiceDaySummary {
    ServiceDaySummary {
        day: row.day->0,
        usage_count: row.usage_count,
        total_cost_nano_usd: row.total_cost,
    }
}

pub open spec fn workspaces(rows: Seq<SummaryRow>) -> Seq<ServiceWorkspaceSummary> {
    of_dimension(rows, "workspace"@).map_values(|row: SummaryRow| workspace_summary(row))
}

pub open spec fn api_keys(rows: Seq<SummaryRow>) -> Seq<ServiceApiKeySummary> {
    of_dimension(rows, "api_key"@).map_values(|row: SummaryRow| api_key_summary(row))
}

pub open spec fn services(rows: Seq<SummaryRow>) -> Seq<ServiceNameSummary> {
    of_dimension(rows, "service"@).map_values(|row: SummaryRow| service_summary(row))
}

pub open spec fn days(rows: Seq<SummaryRow>) -> Seq<ServiceDaySummary> {
    of_dimension(rows, "day"@).map_values(|row: SummaryRow| day_summary(row))
}

/// Workspaces come by falling cost, and of equal cost by their identifiers.
pub open spec fn workspace_key(s: ServiceWorkspaceSummary) -> CostKey {
    CostKey { cost: s.total_cost_nano_usd, id: s.workspace_id }
}

/// Keys come by falling cost, and of equal cost by their identifiers.
pub open spec fn api_key_key(s: ServiceApiKeySummary) -> CostKey {
    CostKey { cost: s.total_cost_nano_usd, id: s.api_key_id }
}

/// Services come by falling cost, and of equal cost by name.
pub open spec fn service_key(s: ServiceNameSummary) -> NamedCostKey {
    NamedCostKey { cost: s.total_cost_nano_usd, name: s.service_name }
}

/// Days come in their order.
pub open spec fn day_key(s: ServiceDaySummary) -> TextKey {
    TextKey { text: s.day }
}

/// Whether a summary is that of rows.
pub open spec fn summarizes(rows: Seq<SummaryRow>, summary: ServiceUsageSummary) -> bool {
    &&& summary.totals == totals_of(rows)
    &&& crate::sort::is_sorted_from(
        workspaces(rows),
        |s: ServiceWorkspaceSummary| workspace_key(s),
        summary.by_workspace@,
    )
    &&& crate::sort::is_sorted_from(
        api_keys(rows),
        |s: ServiceApiKeySummary| api_key_key(s),
        summary.by_api_key@,
    )
    &&& crate::sort::is_sorted_from(
        services(rows),
        |s: ServiceNameSummary| service_key(s),
        summary.by_service@,
    )
    &&& crate::sort::is_sorted_from(days(rows), |s: ServiceDaySummary| day_key(s), summary.by_day@)
}

fn missing(column: &str) -> (r: RepositoryError)
    ensures
        r@ == crate::error::RepositoryErrorView::DataConversionError("missing "@ + column@),
{
    let mut message = "missing ".to_owned();
    message.append(column);
    RepositoryError::DataConversionError(message)
}

proof fn lemma_missing_texts()
    ensures
        "missing "@ + "workspace_id"@ == "missing workspace_id"@,
        "missing "@ + "api_key_id"@ == "missing api_key_id"@,
        "missing "@ + "service_name"@ == "missing service_name"@,
        "missing "@ + "day"@ == "missing day"@,
{
    reveal_strlit("missing ");
    reveal_strlit("workspace_id");
    reveal_strlit("missing workspace_id");
    reveal_strlit("api_key_id");
    reveal_strlit("missing api_key_id");
    reveal_strlit("service_name");
    reveal_strlit("missing service_name");
    reveal_strlit("day");
    reveal_strlit("missing day");
    assert("missing "@ + "workspace_id"@ =~= "missing workspace_id"@);
    assert("missing "@ + "api_key_id"@ =~= "missing api_key_id"@);
    assert("missing "@ + "service_name"@ =~= "missing service_name"@);
    assert("missing "@ + "day"@ =~= "missing day"@);
}

proof fn lemma_dimensions_differ()
    ensures
        "totals"@ != "workspace"@,
        "totals"@ != "api_key"@,
        "totals"@ != "service"@,
        "totals"@ != "day"@,
        "workspace"@ != "api_key"@,
        "workspace"@ != "service"@,
        "workspace"@ != "day"@,
        "api_key"@ != "service"@,
        "api_key"@ != "day"@,
        "service"@ != "day"@,
{
    reveal_strlit("totals");
    reveal_strlit("workspace");
    reveal_strlit("api_key");
    reveal_strlit("service");
    reveal_strlit("day");
    assert("totals"@.len() == 6);
    assert("workspace"@.len() == 9);
    assert("api_key"@.len() == 7 && "api_key"@[0] == 'a');
    assert("service"@.len() == 7 && "service"@[0] == 's');
    assert("day"@.len() == 3);
}

/// A summary of rows up to a position, not yet sorted.
spec fn gathered(rows: Seq<SummaryRow>, summary: ServiceUsageSummary) -> bool {
    &&& summary.totals == totals_of(rows)
    &&& summary.by_workspace@ == workspaces(rows)
    &&& summary.by_api_key@ == api_keys(rows)
    &&& summary.by_service@ == services(rows)
    &&& summary.by_day@ == days(rows)
}

proof fn lemma_push(rows: Seq<SummaryRow>, row: SummaryRow)
    ensures
        totals_of(rows.push(row)) == (if row.dimension@ == "totals"@ {
            ServiceUsageTotals { usage_count: row.usage_count, total_cost_nano_usd: row.total_cost }
        } else {
            totals_of(rows)
        }),
        workspaces(rows.push(row)) == (if row.dimension@ == "workspace"@ {
            workspaces(rows).push(workspace_summary(row))
        } else {
            workspaces(rows)
        }),
        api_keys(rows.push(row)) == (if row.dimension@ == "api_key"@ {
            api_keys(rows).push(api_key_summary(row))
        } else {
            api_keys(rows)
        }),
        services(rows.push(row)) == (if row.dimension@ == "service"@ {
            services(rows).push(service_summary(row))
        } else {
            services(rows)
        }),
        days(rows.push(row)) == (if row.dimension@ == "day"@ {
            days(rows).push(day_summary(row))
        } else {
            days(rows)
        }),
{
    reveal(Seq::filter);
    assert(rows.push(row).drop_last() =~= rows);
    assert(workspaces(rows.push(row)) =~= if row.dimension@ == "workspace"@ {
        workspaces(rows).push(workspace_summary(row))
    } else {
        workspaces(rows)
    });
    assert(api_keys(rows.push(row)) =~= if row.dimension@ == "api_key"@ {
        api_keys(rows).push(api_key_summary(row))
    } else {
        api_keys(rows)
    });
    assert(services(rows.push(row)) =~= if row.dimension@ == "service"@ {
        services(rows).push(service_summary(row))
    } else {
        services(rows)
    });
    assert(days(rows.push(row)) =~= if row.dimension@ == "day"@ {
        days(rows).push(day_summary(row))
    } else {
        days(rows)
    });
}

fn add_row(
    summary: &mut ServiceUsageSummary,
    row: &SummaryRow,
    Ghost(rows): Ghost<Seq<SummaryRow>>,
) -> (r: Result<(), RepositoryError>)
    requires
        gathered(rows, *old(summary)),
    ensures
        match r {
            Ok(_) => row_fault(*row) is None && gathered(rows.push(*row), *final(summary)),
            Err(e) => row_fault(*row) is Some && e@
                == crate::error::RepositoryErrorView::DataConversionError(row_fault(*row)->0),
        },
{
    proof {
        lemma_missing_texts();
        lemma_dimensions_differ();
        lemma_push(rows, *row);
    }
    let dimension = row.dimension.as_str();
    if same_text(dimension, "totals") {
        summary.totals = ServiceUsageTotals {
            usage_count: row.usage_count,
            total_cost_nano_usd: row.total_cost,
        };
    } else if same_text(dimension, "workspace") {
        match row.workspace_id {
            Some(workspace_id) => summary.by_workspace.push(
                ServiceWorkspaceSummary {
                    workspace_id,
                    usage_count: row.usage_count,
                    total_cost_nano_usd: row.total_cost,
                },
            ),
            None => return Err(missing("workspace_id")),
        }
    } else if same_text(dimension, "api_key") {
        match row.api_key_id {
            Some(api_key_id) => summary.by_api_key.push(
                ServiceApiKeySummary {
                    api_key_id,
                    usage_count: row.usage_count,
                    total_cost_nano_usd: row.total_cost,
                },
            ),
            None => return Err(missing("api_key_id")),
        }
    } else if same_text(dimension, "service") {
        match &row.service_name {
            Some(service_name) => summary.by_service.push(
                ServiceNameSummary {
                    service_name: service_name.clone(),
                    usage_count: row.usage_count,
                    quantity: row.quantity,
                    total_cost_nano_usd: row.total_cost,
                },
            ),
            None => return Err(missing("service_name")),
        }
    } else if same_text(dimension, "day") {
        match &row.day {
            Some(day) => summary.by_day.push(
                ServiceDaySummary {
                    day: day.clone(),
                    usage_count: row.usage_count,
                    total_cost_nano_usd: row.total_cost,
                },
            ),
            None => return Err(missing("day")),
        }
    } else {
        let mut message = "unknown service summary dimension: ".to_owned();
        message.append(dimension);
        return Err(RepositoryError::DataConversionError(message));
    }
    Ok(())
}

fn sort_workspaces(list: Vec<ServiceWorkspaceSummary>) -> (r: Vec<ServiceWorkspaceSummary>)
    ensures
        crate::sort::is_sorted_from(
            list@,
            |s: ServiceWorkspaceSummary| workspace_key(s),
            r@,
        ),
{
    let ghost key = |s: ServiceWorkspaceSummary| workspace_key(s);
    let mut keys: Vec<CostKey> = Vec::new();
    let mut i: usize = 0;
    while i < list.len()
        invariant
            i <= list@.len(),
            keys@.len() == i,
            forall|k: int| 0 <= k < i ==> #[trigger] keys@[k] == workspace_key(list@[k]),
        decreases list.len() - i,
    {
        keys.push(CostKey { cost: list[i].total_cost_nano_usd, id: list[i].workspace_id });
        i = i + 1;
    }
    assert(keys@ =~= list@.map_values(key));
    sort_by_keys(list, &keys, Ghost(key))
}

fn sort_api_keys(list: Vec<ServiceApiKeySummary>) -> (r: Vec<ServiceApiKeySummary>)
    ensures
        crate::sort::is_sorted_from(list@, |s: ServiceApiKeySummary| api_key_key(s), r@),
{
    let ghost key = |s: ServiceApiKeySummary| api_key_key(s);
    let mut keys: Vec<CostKey> = Vec::new();
    let mut i: usize = 0;
    while i < list.len()
        invariant
            i <= list@.len(),
            keys@.len() == i,
            forall|k: int| 0 <= k < i ==> #[trigger] keys@[k] == api_key_key(list@[k]),
        decreases list.len() - i,
    {
        keys.push(CostKey { cost: list[i].total_cost_nano_usd, id: list[i].api_key_id });
        i = i + 1;
    }
    assert(keys@ =~= list@.map_values(key));
    sort_by_keys(list, &keys, Ghost(key))
}

fn sort_services(list: Vec<ServiceNameSummary>) -> (r: Vec<ServiceNameSummary>)
    ensures
        crate::sort::is_sorted_from(list@, |s: ServiceNameSummary| service_key(s), r@),
{
    let ghost key = |s: ServiceNameSummary| service_key(s);
    let mut keys: Vec<NamedCostKey> = Vec::new();
    let mut i: usize = 0;
    while i < list.len()
        invariant
            i <= list@.len(),
            keys@.len() == i,
            forall|k: int| 0 <= k < i ==> #[trigger] keys@[k] == service_key(list@[k]),
        decreases list.len() - i,
    {
        keys.push(
            NamedCostKey { cost: list[i].total_cost_nano_usd, name: list[i].service_name.clone() },
        );
        i = i + 1;
    }
    assert(keys@ =~= list@.map_values(key));
    sort_by_keys(list, &keys, Ghost(key))
}

fn sort_days(list: Vec<ServiceDaySummary>) -> (r: Vec<ServiceDaySummary>)
    ensures
        crate::sort::is_sorted_from(list@, |s: ServiceDaySummary| day_key(s), r@),
{
    let ghost key = |s: ServiceDaySummary| day_key(s);
    let mut keys: Vec<TextKey> = Vec::new();
    let mut i: usize = 0;
    while i < list.len()
        invariant
            i <= list@.len(),
            keys@.len() == i,
            forall|k: int| 0 <= k < i ==> #[trigger] keys@[k] == day_key(list@[k]),
        decreases list.len() - i,
    {
        keys.push(TextKey { text: list[i].day.clone() });
        i = i + 1;
    }
    assert(keys@ =~= list@.map_values(key));
    sort_by_keys(list, &keys, Ghost(key))
}

/// Sorts grouped rows into a summary. The first row that does not fit is
/// reported.
pub fn summarize_service_usage(rows: &Vec<SummaryRow>) -> (r: Result<
    ServiceUsageSummary,
    RepositoryError,
>)
    ensures
        match r {
            Ok(summary) => {
                &&& forall|i: int| 0 <= i < rows@.len() ==> row_fault(#[trigger] rows@[i]) is None
                &&& summarizes(rows@, summary)
            },
            Err(e) => exists|i: int|
                {
                    &&& 0 <= i < rows@.len()
                    &&& row_fault(#[trigger] rows@[i]) is Some
                    &&& forall|k: int| 0 <= k < i ==> row_fault(#[trigger] rows@[k]) is None
                    &&& e@ == crate::error::RepositoryErrorView::DataConversionError(
                        row_fault(rows@[i])->0,
                    )
                },
        },
{
    let mut summary = ServiceUsageSummary {
        totals: ServiceUsageTotals { usage_count: 0, total_cost_nano_usd: 0 },
        by_workspace: Vec::new(),
        by_api_key: Vec::new(),
        by_service: Vec::new(),
        by_day: Vec::new(),
    };
    proof {
        reveal(Seq::filter);
        assert(rows@.take(0) =~= seq![]);
        assert(workspaces(seq![]) =~= seq![]);
        assert(api_keys(seq![]) =~= seq![]);
        assert(services(seq![]) =~= seq![]);
        assert(days(seq![]) =~= seq![]);
    }
    let mut i: usize = 0;
    while i < rows.len()
        invariant
            i <= rows@.len(),
            gathered(rows@.take(i as int), summary),
            forall|k: int| 0 <= k < i ==> row_fault(#[trigger] rows@[k]) is None,
        decreases rows.len() - i,
    {
        let ghost before = rows@.take(i as int);
        match add_row(&mut summary, &rows[i], Ghost(before)) {
            Ok(_) => {},
            Err(e) => return Err(e),
        }
        assert(before.push(rows@[i as int]) =~= rows@.take(i + 1));
        i = i + 1;
    }
    assert(rows@.take(rows@.len() as int) =~= rows@);
    Ok(
        ServiceUsageSummary {
            totals: summary.totals,
            by_workspace: sort_workspaces(summary.by_workspace),
            by_api_key: sort_api_keys(summary.by_api_key),
            by_service: sort_services(summary.by_service),
            by_day: sort_days(summary.by_day),
        },
    )
}

/// A row fits where its dimension is known and the column of its dimension is
/// set; otherwise it is told what is wrong.
pub proof fn law_rows_fit_their_dimension(row: SummaryRow)
    ensures
        row_fault(row) is None <==> row.dimension@ == "totals"@ || (row.dimension@ == "workspace"@
            && row.workspace_id is Some) || (row.dimension@ == "api_key"@
            && row.api_key_id is Some) || (row.dimension@ == "service"@
            && row.service_name is Some) || (row.dimension@ == "day"@ && row.day is Some),
        row.dimension@ == "workspace"@ && row.workspace_id is None ==> row_fault(row) == Some(
            "missing workspace_id"@,
        ),
        row.dimension@ == "api_key"@ && row.api_key_id is None ==> row_fault(row) == Some(
            "missing api_key_id"@,
        ),
        row.dimension@ == "service"@ && row.service_name is None ==> row_fault(row) == Some(
            "missing service_name"@,
        ),
        row.dimension@ == "day"@ && row.day is None ==> row_fault(row) == Some("missing day"@),
{
    reveal_strlit("totals");
    reveal_strlit("workspace");
    reveal_strlit("api_key");
    reveal_strlit("service");
    reveal_strlit("day");
    assert("totals"@.len() == 6 && "workspace"@.len() == 9 && "day"@.len() == 3);
    assert("api_key"@.len() == 7 && "api_key"@[0] == 'a');
    assert("service"@.len() == 7 && "service"@[0] == 's');
}

/// The totals are those of the last row that is not grouped, and zero where there
/// is none.
pub proof fn law_totals_come_from_the_last_ungrouped_row(rows: Seq<SummaryRow>, row: SummaryRow)
    ensures
        totals_of(seq![]).usage_count == 0 && totals_of(seq![]).total_cost_nano_usd == 0,
        row.dimension@ == "totals"@ ==> totals_of(rows.push(row)).usage_count == row.usage_count
            && totals_of(rows.push(row)).total_cost_nano_usd == row.total_cost,
        row.dimension@ != "totals"@ ==> totals_of(rows.push(row)) == totals_of(rows),
{
    assert(rows.push(row).drop_last() =~= rows);
}

proof fn lemma_dimension_keeps(rows: Seq<SummaryRow>, dimension: Seq<char>, k: int)
    requires
        0 <= k < rows.len(),
        rows[k].dimension@ == dimension,
    ensures
        of_dimension(rows, dimension).contains(rows[k]),
    decreases rows.len(),
{
    reveal(Seq::filter);
    let shorter = rows.drop_last();
    let list = of_dimension(rows, dimension);
    let before = of_dimension(shorter, dimension);
    if k == rows.len() - 1 {
        assert(list == before.push(rows.last()));
        assert(list[list.len() - 1] == rows[k]);
    } else {
        assert(shorter[k] == rows[k]);
        lemma_dimension_keeps(shorter, dimension, k);
        let i = choose|i: int| 0 <= i < before.len() && before[i] == rows[k];
        assert(list[i] == rows[k]);
    }
}

proof fn lemma_listed_of_dimension(rows: Seq<SummaryRow>, dimension: Seq<char>, k: int)
    requires
        0 <= k < rows.len(),
        rows[k].dimension@ == dimension,
    ensures
        exists|i: int|
            0 <= i < of_dimension(rows, dimension).len() && #[trigger] of_dimension(
                rows,
                dimension,
            )[i] == rows[k],
{
    let list = of_dimension(rows, dimension);
    lemma_dimension_keeps(rows, dimension, k);
    let i = choose|i: int| 0 <= i < list.len() && list[i] == rows[k];
    assert(of_dimension(rows, dimension)[i] == rows[k]);
}

/// Every row of a dimension is in its list, with its own count and cost, and no
/// list holds anything else.
pub proof fn law_every_row_is_in_its_list(
    rows: Seq<SummaryRow>,
    summary: ServiceUsageSummary,
    k: int,
)
    requires
        summarizes(rows, summary),
        0 <= k < rows.len(),
        row_fault(rows[k]) is None,
    ensures
        rows[k].dimension@ == "workspace"@ ==> summary.by_workspace@.contains(
            (ServiceWorkspaceSummary {
                workspace_id: rows[k].workspace_id->0,
                usage_count: rows[k].usage_count,
                total_cost_nano_usd: rows[k].total_cost,
            }),
        ),
        rows[k].dimension@ == "api_key"@ ==> summary.by_api_key@.contains(
            (ServiceApiKeySummary {
                api_key_id: rows[k].api_key_id->0,
                usage_count: rows[k].usage_count,
                total_cost_nano_usd: rows[k].total_cost,
            }),
        ),
        rows[k].dimension@ == "service"@ ==> summary.by_service@.contains(
            (ServiceNameSummary {
                service_name: rows[k].service_name->0,
                usage_count: rows[k].usage_count,
                quantity: rows[k].quantity,
                total_cost_nano_usd: rows[k].total_cost,
            }),
        ),
        rows[k].dimension@ == "day"@ ==> summary.by_day@.contains(
            (ServiceDaySummary {
                day: rows[k].day->0,
                usage_count: rows[k].usage_count,
                total_cost_nano_usd: rows[k].total_cost,
            }),
        ),
        summary.totals == totals_of(rows),
{
    let row = rows[k];
    crate::sort::law_sorting_keeps_rows(
        workspaces(rows),
        |s: ServiceWorkspaceSummary| workspace_key(s),
        summary.by_workspace@,
    );
    crate::sort::law_sorting_keeps_rows(
        api_keys(rows),
        |s: ServiceApiKeySummary| api_key_key(s),
        summary.by_api_key@,
    );
    crate::sort::law_sorting_keeps_rows(
        services(rows),
        |s: ServiceNameSummary| service_key(s),
        summary.by_service@,
    );
    crate::sort::law_sorting_keeps_rows(
        days(rows),
        |s: ServiceDaySummary| day_key(s),
        summary.by_day@,
    );
    lemma_listed_of_dimension(rows, row.dimension@, k);
    let i = choose|i: int|
        0 <= i < of_dimension(rows, row.dimension@).len() && #[trigger] of_dimension(
            rows,
            row.dimension@,
        )[i] == row;
    if row.dimension@ == "workspace"@ {
        assert(workspaces(rows)[i] == workspace_summary(row));
    }
    if row.dimension@ == "api_key"@ {
        assert(api_keys(rows)[i] == api_key_summary(row));
    }
    if row.dimension@ == "service"@ {
        assert(services(rows)[i] == service_summary(row));
    }
    if row.dimension@ == "day"@ {
        assert(days(rows)[i] == day_summary(row));
    }
}

/// Each list is as long as there are rows of its dimension.
pub proof fn law_lists_hold_nothing_else(rows: Seq<SummaryRow>, summary: ServiceUsageSummary)
    requires
        summarizes(rows, summary),
    ensures
        summary.by_workspace@.len() == rows.filter(
            |row: SummaryRow| row.dimension@ == "workspace"@,
        ).len(),
        summary.by_api_key@.len() == rows.filter(
            |row: SummaryRow| row.dimension@ == "api_key"@,
        ).len(),
        summary.by_service@.len() == rows.filter(
            |row: SummaryRow| row.dimension@ == "service"@,
        ).len(),
        summary.by_day@.len() == rows.filter(|row: SummaryRow| row.dimension@ == "day"@).len(),
{
    crate::sort::law_sorting_keeps_rows(
        workspaces(rows),
        |s: ServiceWorkspaceSummary| workspace_key(s),
        summary.by_workspace@,
    );
    crate::sort::law_sorting_keeps_rows(
        api_keys(rows),
        |s: ServiceApiKeySummary| api_key_key(s),
        summary.by_api_key@,
    );
    crate::sort::law_sorting_keeps_rows(
        services(rows),
        |s: ServiceNameSummary| service_key(s),
        summary.by_service@,
    );
    crate::sort::law_sorting_keeps_rows(
        days(rows),
        |s: ServiceDaySummary| day_key(s),
        summary.by_day@,
    );
    assert(of_dimension(rows, "workspace"@) == rows.filter(
        |row: SummaryRow| row.dimension@ == "workspace"@,
    ));
    assert(of_dimension(rows, "api_key"@) == rows.filter(
        |row: SummaryRow| row.dimension@ == "api_key"@,
    ));
    assert(of_dimension(rows, "service"@) == rows.filter(
        |row: SummaryRow| row.dimension@ == "service"@,
    ));
    assert(of_dimension(rows, "day"@) == rows.filter(|row: SummaryRow| row.dimension@ == "day"@));
}

/// The dearest workspaces, keys and services come first, those of equal cost by
/// identifier or by name, and days come in their order.
pub proof fn law_lists_are_ordered(
    rows: Seq<SummaryRow>,
    summary: ServiceUsageSummary,
    i: int,
    j: int,
)
    requires
        summarizes(rows, summary),
        0 <= i < j,
    ensures
        j < summary.by_workspace@.len() ==> {
            let (a, b) = (summary.by_workspace@[i], summary.by_workspace@[j]);
            a.total_cost_nano_usd > b.total_cost_nano_usd || (a.total_cost_nano_usd
                == b.total_cost_nano_usd && a.workspace_id.value <= b.workspace_id.value)
        },
        j < summary.by_api_key@.len() ==> {
            let (a, b) = (summary.by_api_key@[i], summary.by_api_key@[j]);
            a.total_cost_nano_usd > b.total_cost_nano_usd || (a.total_cost_nano_usd
                == b.total_cost_nano_usd && a.api_key_id.value <= b.api_key_id.value)
        },
        j < summary.by_service@.len() ==> {
            let (a, b) = (summary.by_service@[i], summary.by_service@[j]);
            a.total_cost_nano_usd > b.total_cost_nano_usd || (a.total_cost_nano_usd
                == b.total_cost_nano_usd && crate::sort::text_at_most(
                a.service_name@,
                b.service_name@,
            ))
        },
        j < summary.by_day@.len() ==> crate::sort::text_at_most(
            summary.by_day@[i].day@,
            summary.by_day@[j].day@,
        ),
{
    if j < summary.by_workspace@.len() {
        crate::sort::law_sorted_rows_ascend(
            workspaces(rows),
            |s: ServiceWorkspaceSummary| workspace_key(s),
            summary.by_workspace@,
            i,
            j,
        );
    }
    if j < summary.by_api_key@.len() {
        crate::sort::law_sorted_rows_ascend(
            api_keys(rows),
            |s: ServiceApiKeySummary| api_key_key(s),
            summary.by_api_key@,
            i,
            j,
        );
    }
    if j < summary.by_service@.len() {
        crate::sort::law_sorted_rows_ascend(
            services(rows),
            |s: ServiceNameSummary| service_key(s),
            summary.by_service@,
            i,
            j,
        );
    }
    if j < summary.by_day@.len() {
        crate::sort::law_sorted_rows_ascend(
            days(rows),
            |s: ServiceDaySummary| day_key(s),
            summary.by_day@,
            i,
            j,
        );
    }
}

} // verus!

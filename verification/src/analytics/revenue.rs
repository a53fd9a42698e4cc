//! Reports on revenue.
use crate::analytics::provider_attribution::{
    load_model_provider_breakdowns, BreakdownRow, ModelProviderRevenueBreakdown,
};
use crate::ids::Uuid;
use crate::time::Timestamp;
use vstd::prelude::*;
use vstd::string::StringExecFns;

verus! {

/// What a report is sorted by.
#[derive(Debug, Clone, Copy, PartialEq, Eq, Structural)]
pub enum RevenueSort {
    Revenue,
    Requests,
    Tokens,
}

impl RevenueSort {
    /// The column to sort by.
    pub open spec fn name(self) -> Seq<char> {
        match self {
            RevenueSort::Revenue => "revenue_nano"@,
            RevenueSort::Requests => "requests"@,
            RevenueSort::Tokens => "tokens"@,
        }
    }

    /// The column to sort by: one of a fixed list.
    pub fn column(&self) -> (r: &'static str)
        ensures
            r@ == self.name(),
    {
        match self {
            RevenueSort::Revenue => "revenue_nano",
            RevenueSort::Requests => "requests",
            RevenueSort::Tokens => "tokens",
        }
    }
}

/// The pattern that finds a text anywhere in a name.
pub fn search_pattern(search: &Option<String>) -> (r: Option<String>)
    ensures
        crate::text::optional_view(r) == (match *search {
            Some(text) => Some("%"@ + text@ + "%"@),
            None => None,
        }),
{
    match search {
        Some(text) => {
            let mut pattern = "%".to_owned();
            pattern.append(text.as_str());
            pattern.append("%");
            Some(pattern)
        },
        None => None,
    }
}

/// The filters of a report on models, which its pages, its count and its
/// breakdowns share.
pub const MODEL_FILTER: &'static str =
    "WHERE ($3::bool IS NULL OR COALESCE(m.verifiable, false) = $3) AND ($4::text IS NULL OR COALESCE(uh.served_provider_type, m.provider_type) = $4) AND ($5::text IS NULL OR uh.model_name ILIKE $5)";

pub const MODEL_COLUMNS: &'static str =
    "SELECT uh.model_name, COALESCE(SUM(uh.total_cost), 0)::bigint as revenue_nano, COALESCE(SUM(uh.request_count), 0)::bigint as requests, (COALESCE(SUM(uh.input_tokens), 0) + COALESCE(SUM(uh.output_tokens), 0))::bigint as tokens, COUNT(DISTINCT uh.organization_id)::bigint as unique_orgs, BOOL_OR(COALESCE(m.verifiable, false)) as verifiable, MAX(m.provider_type) as provider_type, ";

pub const MODEL_FALLBACK_COLUMNS: &'static str =
    " as p95_ttft_ms, COALESCE(SUM(uh.request_count) FILTER (WHERE uh.served_via_fallback), 0)::bigint as fallback_requests, COALESCE(SUM(uh.total_cost) FILTER (WHERE uh.served_via_fallback), 0)::bigint as fallback_cost_nano, COUNT(*) OVER ()::bigint as total_groups FROM usage_rows uh LEFT JOIN models m ON m.id = uh.model_id ";

pub const MODEL_COUNT: &'static str =
    "SELECT COUNT(*)::bigint FROM (SELECT 1 FROM usage_rows uh LEFT JOIN models m ON m.id = uh.model_id ";

/// The query for a page of models, on rows that are named `usage_rows`.
pub fn model_revenue_query(sort: RevenueSort, avg_ttft: &str, p95_ttft: &str) -> (r: String)
    ensures
        r@ == MODEL_COLUMNS@ + avg_ttft@ + " as avg_ttft_ms, "@ + p95_ttft@
            + MODEL_FALLBACK_COLUMNS@ + MODEL_FILTER@ + " GROUP BY uh.model_name ORDER BY "@
            + sort.name() + " DESC LIMIT $6 OFFSET $7"@,
{
    let mut sql = MODEL_COLUMNS.to_owned();
    sql.append(avg_ttft);
    sql.append(" as avg_ttft_ms, ");
    sql.append(p95_ttft);
    sql.append(MODEL_FALLBACK_COLUMNS);
    sql.append(MODEL_FILTER);
    sql.append(" GROUP BY uh.model_name ORDER BY ");
    sql.append(sort.column());
    sql.append(" DESC LIMIT $6 OFFSET $7");
    sql
}

/// The query that counts the models behind all pages.
pub fn model_count_query() -> (r: String)
    ensures
        r@ == MODEL_COUNT@ + MODEL_FILTER@ + " GROUP BY uh.model_name) t"@,
{
    let mut sql = MODEL_COUNT.to_owned();
    sql.append(MODEL_FILTER);
    sql.append(" GROUP BY uh.model_name) t");
    sql
}

/// What one model earned, as it is read; costs are in billionths of a dollar.
#[derive(Debug, Clone)]
pub struct ModelRevenueRow {
    pub model_name: String,
    pub revenue_nano: i64,
    pub requests: i64,
    pub tokens: i64,
    pub unique_orgs: i64,
    pub verifiable: Option<bool>,
    pub provider_type: Option<String>,
    pub fallback_requests: i64,
    pub fallback_cost_nano: i64,
}

/// What one model earned, and with which providers.
#[derive(Debug, Clone)]
pub struct ModelRevenueEntry {
    pub model_name: String,
    pub consumed_cost_nano: i64,
    pub requests: i64,
    pub tokens: i64,
    pub unique_orgs: i64,
    pub verifiable: bool,
    pub provider_type: Option<String>,
    pub served_provider_breakdown: Vec<ModelProviderRevenueBreakdown>,
    pub fallback_requests: i64,
    pub fallback_cost_nano: i64,
}

/// A page of a report on models.
#[derive(Debug, Clone)]
pub struct ModelRevenueReport {
    pub period_start: Timestamp,
    pub period_end: Timestamp,
    pub data: Vec<ModelRevenueEntry>,
    pub total: i64,
    pub limit: i64,
    pub offset: i64,
}

/// Which page of a report is asked for.
#[derive(Debug, Clone, Copy, PartialEq, Eq, Structural)]
pub struct RevenuePage {
    pub start: Timestamp,
    pub end: Timestamp,
    pub limit: i64,
    pub offset: i64,
}

/// An optional flag, or false.
pub open spec fn flag_or_false(flag: Option<bool>) -> bool {
    match flag {
        Some(value) => value,
        None => false,
    }
}

fn flag(value: Option<bool>) -> (r: bool)
    ensures
        r == flag_or_false(value),
{
    match value {
        Some(flag) => flag,
        None => false,
    }
}

/// The names of the models on a page.
pub open spec fn page_names(rows: Seq<ModelRevenueRow>) -> Seq<Seq<char>> {
    rows.map_values(|row: ModelRevenueRow| row.model_name@)
}

/// Whether an entry shows a model with its providers.
pub open spec fn shows_model(
    rows: Seq<ModelRevenueRow>,
    breakdowns: Seq<BreakdownRow>,
    at: int,
    entry: ModelRevenueEntry,
) -> bool {
    let row = rows[at];
    &&& entry.model_name@ == row.model_name@
    &&& entry.consumed_cost_nano == row.revenue_nano
    &&& entry.requests == row.requests
    &&& entry.tokens == row.tokens
    &&& entry.unique_orgs == row.unique_orgs
    &&& entry.verifiable == flag_or_false(row.verifiable)
    &&& entry.provider_type == row.provider_type
    &&& entry.fallback_requests == row.fallback_requests
    &&& entry.fallback_cost_nano == row.fallback_cost_nano
    &&& entry.served_provider_breakdown@
        == (if crate::analytics::provider_attribution::named_before(page_names(rows), at) {
        seq![]
    } else {
        crate::analytics::provider_attribution::breakdowns_of(breakdowns, row.model_name@)
    })
}

/// The names for which providers are read; none where the page is empty.
pub fn breakdown_names(rows: &Vec<ModelRevenueRow>) -> (r: Vec<String>)
    ensures
        crate::text::list_view(r@) == page_names(rows@),
{
    let mut names: Vec<String> = Vec::new();
    let mut i: usize = 0;
    while i < rows.len()
        invariant
            i <= rows@.len(),
            names@.len() == i,
            forall|k: int| 0 <= k < i ==> (#[trigger] names@[k])@ == rows@[k].model_name@,
        decreases rows.len() - i,
    {
        names.push(rows[i].model_name.clone());
        i = i + 1;
    }
    assert(crate::text::list_view(names@) =~= page_names(rows@));
    names
}

/// Puts a page of a report on models together.
pub fn get_model_revenue(
    page: RevenuePage,
    rows: &Vec<ModelRevenueRow>,
    total: i64,
    breakdowns: &Vec<BreakdownRow>,
) -> (r: ModelRevenueReport)
    ensures
        r.period_start == page.start,
        r.period_end == page.end,
        r.total == total,
        r.limit == page.limit,
        r.offset == page.offset,
        r.data@.len() == rows@.len(),
        forall|i: int|
            0 <= i < r.data@.len() ==> shows_model(rows@, breakdowns@, i, #[trigger] r.data@[i]),
{
    let names = breakdown_names(rows);
    let mut by_model = load_model_provider_breakdowns(&names, breakdowns);
    let ghost lists = by_model@;
    let mut backwards: Vec<ModelRevenueEntry> = Vec::new();
    let count: usize = rows.len();
    let ghost views = page_names(rows@);
    proof {
        assert(views.len() == crate::text::list_view(names@).len());
        assert(names@.len() == rows@.len());
        assert forall|k: int| 0 <= k < lists.len() implies (#[trigger] lists[k])@
            == (if crate::analytics::provider_attribution::named_before(views, k) {
            seq![]
        } else {
            crate::analytics::provider_attribution::breakdowns_of(
                breakdowns@,
                rows@[k].model_name@,
            )
        }) by {
            assert(crate::text::list_view(names@)[k] == names@[k]@);
            assert(views[k] == rows@[k].model_name@);
        }
    }
    let mut data: Vec<ModelRevenueEntry> = Vec::new();
    while by_model.len() > 0
        invariant
            count == rows@.len(),
            lists.len() == count,
            views == page_names(rows@),
            by_model@.len() + backwards@.len() == count,
            by_model@ == lists.take(by_model@.len() as int),
            forall|k: int|
                0 <= k < lists.len() ==> (#[trigger] lists[k])@
                    == (if crate::analytics::provider_attribution::named_before(views, k) {
                    seq![]
                } else {
                    crate::analytics::provider_attribution::breakdowns_of(
                        breakdowns@,
                        rows@[k].model_name@,
                    )
                }),
            forall|k: int|
                0 <= k < backwards@.len() ==> shows_model(
                    rows@,
                    breakdowns@,
                    count - 1 - k,
                    #[trigger] backwards@[k],
                ),
        decreases by_model.len(),
    {
        let at: usize = by_model.len() - 1;
        let ghost before = by_model@;
        let list = by_model.pop();
        let row = &rows[at];
        proof {
            assert(before[at as int] == lists[at as int]);
            assert(by_model@ =~= lists.take(at as int));
        }
        match list {
            Some(served_provider_breakdown) => {
                backwards.push(
                    ModelRevenueEntry {
                        model_name: row.model_name.clone(),
                        consumed_cost_nano: row.revenue_nano,
                        requests: row.requests,
                        tokens: row.tokens,
                        unique_orgs: row.unique_orgs,
                        verifiable: flag(row.verifiable),
                        provider_type: crate::text::copy_optional(&row.provider_type),
                        served_provider_breakdown,
                        fallback_requests: row.fallback_requests,
                        fallback_cost_nano: row.fallback_cost_nano,
                    },
                );
                assert(shows_model(
                    rows@,
                    breakdowns@,
                    at as int,
                    backwards@[backwards@.len() - 1],
                ));
            },
            None => {},
        }
    }
    let ghost all = backwards@;
    while backwards.len() > 0
        invariant
            count == rows@.len(),
            all.len() == count,
            backwards@.len() + data@.len() == count,
            backwards@ == all.take(backwards@.len() as int),
            forall|k: int|
                0 <= k < all.len() ==> shows_model(
                    rows@,
                    breakdowns@,
                    count - 1 - k,
                    #[trigger] all[k],
                ),
            forall|k: int|
                0 <= k < data@.len() ==> shows_model(rows@, breakdowns@, k, #[trigger] data@[k]),
        decreases backwards.len(),
    {
        let ghost last = backwards@.len() - 1;
        let ghost before = backwards@;
        let entry = backwards.pop();
        proof {
            assert(before[last] == all[last]);
            assert(backwards@ =~= all.take(last));
        }
        match entry {
            Some(entry) => {
                assert(shows_model(rows@, breakdowns@, count - 1 - last, all[last]));
                data.push(entry);
            },
            None => {},
        }
    }
    ModelRevenueReport {
        period_start: page.start,
        period_end: page.end,
        data,
        total,
        limit: page.limit,
        offset: page.offset,
    }
}

/// The part of a report on organizations that its pages and its count share, on
/// rows that are named `usage_rows`.
pub const ORGANIZATION_BODY: &'static str =
    "WITH paying AS ( SELECT DISTINCT organization_id FROM organization_limits_history WHERE (credit_type = 'payment' OR (credit_type = 'postpay' AND spend_limit > 0)) AND effective_until IS NULL ) SELECT o.id as organization_id, o.name as organization_name, COALESCE(SUM(uh.total_cost), 0)::bigint as revenue_nano, COALESCE(SUM(uh.total_cost) FILTER (WHERE COALESCE(m.verifiable, false)), 0)::bigint as verifiable_nano, COALESCE(SUM(uh.total_cost) FILTER (WHERE NOT COALESCE(m.verifiable, false)), 0)::bigint as external_nano, COALESCE(SUM(uh.request_count), 0)::bigint as requests, (COALESCE(SUM(uh.input_tokens), 0) + COALESCE(SUM(uh.output_tokens), 0))::bigint as tokens, COUNT(DISTINCT uh.model_name)::bigint as models_used, BOOL_OR(p.organization_id IS NOT NULL) as is_paying, MAX(uh.last_usage_at) as last_usage_at, COUNT(*) OVER ()::bigint as total_groups FROM organizations o INNER JOIN usage_rows uh ON uh.organization_id = o.id LEFT JOIN models m ON m.id = uh.model_id LEFT JOIN paying p ON p.organization_id = o.id WHERE ($4::text IS NULL OR o.name ILIKE $4) GROUP BY o.id, o.name HAVING ($3::bool IS NULL OR BOOL_OR(p.organization_id IS NOT NULL) = $3)";

/// The query for a page of organizations, from the part that is shared.
pub fn org_revenue_query(body: &str, sort: RevenueSort) -> (r: String)
    ensures
        r@ == body@ + " ORDER BY "@ + sort.name() + " DESC LIMIT $5 OFFSET $6"@,
{
    let mut sql = body.to_owned();
    sql.append(" ORDER BY ");
    sql.append(sort.column());
    sql.append(" DESC LIMIT $5 OFFSET $6");
    sql
}

/// The query that counts the organizations behind all pages.
pub fn org_count_query(body: &str) -> (r: String)
    ensures
        r@ == "SELECT COUNT(*)::bigint FROM ("@ + body@ + ") t"@,
{
    let mut sql = "SELECT COUNT(*)::bigint FROM (".to_owned();
    sql.append(body);
    sql.append(") t");
    sql
}

/// What one organization spent, as it is read; costs are in billionths of a
/// dollar.
#[derive(Debug, Clone)]
pub struct OrgRevenueRow {
    pub organization_id: Uuid,
    pub organization_name: String,
    pub revenue_nano: i64,
    pub verifiable_nano: i64,
    pub external_nano: i64,
    pub requests: i64,
    pub tokens: i64,
    pub models_used: i64,
    pub is_paying: Option<bool>,
    pub last_usage_at: Option<Timestamp>,
}

/// What one organization spent.
#[derive(Debug, Clone)]
pub struct OrgRevenueEntry {
    pub organization_id: Uuid,
    pub organization_name: String,
    pub consumed_cost_nano: i64,
    pub verifiable_consumed_nano: i64,
    pub non_verifiable_consumed_nano: i64,
    pub requests: i64,
    pub tokens: i64,
    pub models_used: i64,
    pub is_paying: bool,
    pub last_usage_at: Option<Timestamp>,
}

/// What a report shows of an organization.
pub fn get_org_revenue(row: OrgRevenueRow) -> (r: OrgRevenueEntry)
    ensures
        r == (OrgRevenueEntry {
            organization_id: row.organization_id,
            organization_name: row.organization_name,
            consumed_cost_nano: row.revenue_nano,
            verifiable_consumed_nano: row.verifiable_nano,
            non_verifiable_consumed_nano: row.external_nano,
            requests: row.requests,
            tokens: row.tokens,
            models_used: row.models_used,
            is_paying: flag_or_false(row.is_paying),
            last_usage_at: row.last_usage_at,
        }),
{
    OrgRevenueEntry {
        organization_id: row.organization_id,
        organization_name: row.organization_name,
        consumed_cost_nano: row.revenue_nano,
        verifiable_consumed_nano: row.verifiable_nano,
        non_verifiable_consumed_nano: row.external_nano,
        requests: row.requests,
        tokens: row.tokens,
        models_used: row.models_used,
        is_paying: flag(row.is_paying),
        last_usage_at: row.last_usage_at,
    }
}

/// An entry shows its model's own numbers, each in its place, with the providers
/// of the model at its first entry.
pub proof fn law_entries_show_their_model(
    rows: Seq<ModelRevenueRow>,
    breakdowns: Seq<BreakdownRow>,
    at: int,
    entry: ModelRevenueEntry,
)
    requires
        0 <= at < rows.len(),
        shows_model(rows, breakdowns, at, entry),
    ensures
        entry.model_name@ == rows[at].model_name@,
        entry.consumed_cost_nano == rows[at].revenue_nano,
        entry.requests == rows[at].requests,
        entry.tokens == rows[at].tokens,
        entry.unique_orgs == rows[at].unique_orgs,
        entry.verifiable <==> rows[at].verifiable == Some(true),
        entry.provider_type == rows[at].provider_type,
        entry.fallback_requests == rows[at].fallback_requests,
        entry.fallback_cost_nano == rows[at].fallback_cost_nano,
        (forall|k: int| 0 <= k < at ==> (#[trigger] rows[k]).model_name@ != rows[at].model_name@)
            ==> entry.served_provider_breakdown@
            == crate::analytics::provider_attribution::breakdowns_of(
            breakdowns,
            rows[at].model_name@,
        ),
        (exists|k: int| 0 <= k < at && (#[trigger] rows[k]).model_name@ == rows[at].model_name@)
            ==> entry.served_provider_breakdown@.len() == 0,
{
    let names = page_names(rows);
    crate::analytics::provider_attribution::law_each_breakdown_belongs_to_its_model(
        breakdowns,
        breakdowns[0],
        names[at],
        names,
        at,
    );
    assert forall|k: int| 0 <= k < rows.len() implies #[trigger] names[k] == rows[k].model_name@ by {}
    if exists|k: int| 0 <= k < at && (#[trigger] rows[k]).model_name@ == rows[at].model_name@ {
        let k = choose|k: int|
            0 <= k < at && (#[trigger] rows[k]).model_name@ == rows[at].model_name@;
        assert(names[k] == names[at]);
    } else {
        assert forall|k: int| 0 <= k < at implies #[trigger] names[k] != names[at] by {
            assert(rows[k].model_name@ != rows[at].model_name@);
        }
    }
}

/// A report is sorted by the column that is asked for; a flag that is not set is
/// false.
pub proof fn law_reports_sort_by_their_column(flag: bool)
    ensures
        RevenueSort::Revenue.name() == "revenue_nano"@,
        RevenueSort::Requests.name() == "requests"@,
        RevenueSort::Tokens.name() == "tokens"@,
        flag_or_false(Some(flag)) == flag,
        !flag_or_false(None),
{
}

} // verus!

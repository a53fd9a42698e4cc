//! Reports on one organization.
use crate::analytics::columns::{
    binds_credit_type, binds_nothing, column_names, columns_view, computed, has_no_four,
    lemma_binds_at, lemma_joins, lemma_no_four, lemma_select_binds_nothing,
    lemma_sum_binds_nothing, select, select_text, sum, sum_text, Column, ColumnView,
};
use crate::error::{not_found, RepositoryError};
use crate::ids::Uuid;
use crate::text::same_text;
use crate::time::Timestamp;
use vstd::prelude::*;
use vstd::string::StringExecFns;

verus! {

/// The beginning of every query on usage that one type of credit paid for: one
/// row for each request, however often credit was allocated to it.
pub const CREDIT_TYPE_USAGE_CTE: &'static str =
    "WITH metric_usage AS ( SELECT ul.*, allocation.amount AS filtered_cost FROM organization_usage_log ul LEFT JOIN LATERAL ( SELECT SUM(a.amount)::BIGINT AS amount FROM usage_credit_allocations a WHERE a.inference_usage_id = ul.id AND a.credit_type = $4 ) allocation ON true WHERE ul.organization_id = $1 AND ul.created_at >= $2 AND ul.created_at < $3 AND allocation.amount > 0 ) ";

/// Groups come in the order of their requests, the busiest first.
pub const BY_REQUESTS: &'static str = " ORDER BY requests DESC";

pub const CREDIT_SUMMARY_ROWS: &'static str = " FROM metric_usage";

pub const CREDIT_WORKSPACE_ROWS: &'static str =
    " FROM workspaces w LEFT JOIN metric_usage ul ON ul.workspace_id = w.id WHERE w.organization_id = $1 GROUP BY w.id, w.name";

pub const CREDIT_API_KEY_ROWS: &'static str =
    " FROM api_keys ak LEFT JOIN metric_usage ul ON ul.api_key_id = ak.id WHERE ak.workspace_id IN ( SELECT id FROM workspaces WHERE organization_id = $1 ) GROUP BY ak.id, ak.name";

pub const CREDIT_MODEL_ROWS: &'static str = " FROM metric_usage ul GROUP BY ul.model_name";

pub const HOURLY_SUMMARY_ROWS: &'static str = " FROM usage_rows WHERE organization_id = $1";

pub const HOURLY_WORKSPACE_ROWS: &'static str =
    " FROM workspaces w LEFT JOIN usage_rows uh ON uh.workspace_id = w.id AND uh.organization_id = $1 WHERE w.organization_id = $1 GROUP BY w.id, w.name";

pub const HOURLY_API_KEY_ROWS: &'static str =
    " FROM api_keys ak LEFT JOIN usage_rows uh ON uh.api_key_id = ak.id AND uh.organization_id = $1 WHERE ak.workspace_id IN ( SELECT id FROM workspaces WHERE organization_id = $1 ) GROUP BY ak.id, ak.name";

pub const HOURLY_MODEL_ROWS: &'static str =
    " FROM usage_rows uh WHERE uh.organization_id = $1 GROUP BY uh.model_name";

/// The four queries of a report. Both sources of usage give the same columns.
#[derive(Debug, Clone)]
pub struct MetricsSql {
    pub summary: String,
    pub by_workspace: String,
    pub by_api_key: String,
    pub by_model: String,
}

/// The characters of the queries of a report.
pub struct MetricsSqlView {
    pub summary: Seq<char>,
    pub by_workspace: Seq<char>,
    pub by_api_key: Seq<char>,
    pub by_model: Seq<char>,
}

impl View for MetricsSql {
    type V = MetricsSqlView;

    open spec fn view(&self) -> MetricsSqlView {
        MetricsSqlView {
            summary: self.summary@,
            by_workspace: self.by_workspace@,
            by_api_key: self.by_api_key@,
            by_model: self.by_model@,
        }
    }
}

/// The expressions for the latencies of a model on aggregated usage.
#[derive(Debug, Clone)]
pub struct LatencyColumns {
    pub avg_ttft: String,
    pub p95_ttft: String,
    pub avg_itl: String,
    pub p95_itl: String,
}

/// The characters of the expressions for latencies.
pub struct LatencyView {
    pub avg_ttft: Seq<char>,
    pub p95_ttft: Seq<char>,
    pub avg_itl: Seq<char>,
    pub p95_itl: Seq<char>,
}

impl View for LatencyColumns {
    type V = LatencyView;

    open spec fn view(&self) -> LatencyView {
        LatencyView {
            avg_ttft: self.avg_ttft@,
            p95_ttft: self.p95_ttft@,
            avg_itl: self.avg_itl@,
            p95_itl: self.p95_itl@,
        }
    }
}

/// How a source of usage counts requests and costs: the expression for the
/// number of requests, the prefix of its columns, and the column with the cost.
pub struct Counting {
    pub requests: Seq<char>,
    pub prefix: Seq<char>,
    pub cost: Seq<char>,
}

/// The value of an expression, under a name.
pub open spec fn computed_column(expression: Seq<char>, name: Seq<char>) -> ColumnView {
    ColumnView::Computed { expression, name }
}

/// Requests, tokens and cost.
pub open spec fn usage_columns(counting: Counting) -> Seq<ColumnView> {
    seq![
        computed_column(counting.requests, "requests"@),
        computed_column(sum_text(counting.prefix, "input_tokens"@), "input_tokens"@),
        computed_column(sum_text(counting.prefix, "output_tokens"@), "output_tokens"@),
        computed_column(sum_text(counting.prefix, "cache_read_tokens"@), "cache_read_tokens"@),
        computed_column(sum_text(counting.prefix, counting.cost), "cost_nano"@),
    ]
}

/// The columns on an organization as a whole.
pub open spec fn summary_columns(counting: Counting) -> Seq<ColumnView> {
    usage_columns(counting) + seq![
        computed_column("COUNT(DISTINCT api_key_id)::bigint"@, "unique_api_keys"@),
    ]
}

/// The columns on a workspace.
pub open spec fn workspace_columns(counting: Counting) -> Seq<ColumnView> {
    seq![
        computed_column("w.id"@, "workspace_id"@),
        computed_column("w.name"@, "workspace_name"@),
    ] + usage_columns(counting)
}

/// The columns on a key.
pub open spec fn api_key_columns(counting: Counting) -> Seq<ColumnView> {
    seq![
        computed_column("ak.id"@, "api_key_id"@),
        computed_column("ak.name"@, "api_key_name"@),
        computed_column(counting.requests, "requests"@),
        computed_column(sum_text(counting.prefix, counting.cost), "cost_nano"@),
    ]
}

/// The columns on a model.
pub open spec fn model_columns(counting: Counting, latency: LatencyView) -> Seq<ColumnView> {
    seq![ColumnView::Own { prefix: counting.prefix, name: "model_name"@ }] + usage_columns(counting)
        + seq![
        computed_column(latency.avg_ttft, "avg_ttft_ms"@),
        computed_column(latency.p95_ttft, "p95_ttft_ms"@),
        computed_column(latency.avg_itl, "avg_itl_ms"@),
        computed_column(latency.p95_itl, "p95_itl_ms"@),
    ]
}

/// Aggregated usage, with columns under a prefix.
pub open spec fn hourly_counting(prefix: Seq<char>) -> Counting {
    Counting { requests: sum_text(prefix, "request_count"@), prefix, cost: "total_cost"@ }
}

/// Single requests that a type of credit paid for, with columns under a prefix.
pub open spec fn credit_counting(requests: Seq<char>, prefix: Seq<char>) -> Counting {
    Counting { requests, prefix, cost: "filtered_cost"@ }
}

/// The latencies of single requests.
pub open spec fn credit_latency() -> LatencyView {
    LatencyView {
        avg_ttft: "AVG(ul.ttft_ms)::double precision"@,
        p95_ttft:
            "PERCENTILE_CONT(0.95) WITHIN GROUP (ORDER BY ul.ttft_ms)::double precision"@,
        avg_itl: "AVG(ul.avg_itl_ms)::double precision"@,
        p95_itl:
            "PERCENTILE_CONT(0.95) WITHIN GROUP (ORDER BY ul.avg_itl_ms)::double precision"@,
    }
}

/// The queries of a report on aggregated usage.
pub open spec fn hourly_statements(latency: LatencyView) -> MetricsSqlView {
    MetricsSqlView {
        summary: select_text(summary_columns(hourly_counting(""@)), HOURLY_SUMMARY_ROWS@),
        by_workspace: select_text(
            workspace_columns(hourly_counting("uh."@)),
            HOURLY_WORKSPACE_ROWS@,
        ) + BY_REQUESTS@,
        by_api_key: select_text(api_key_columns(hourly_counting("uh."@)), HOURLY_API_KEY_ROWS@)
            + BY_REQUESTS@,
        by_model: select_text(model_columns(hourly_counting("uh."@), latency), HOURLY_MODEL_ROWS@)
            + BY_REQUESTS@,
    }
}

/// The queries of a report on usage that one type of credit paid for.
pub open spec fn credit_type_statements() -> MetricsSqlView {
    MetricsSqlView {
        summary: CREDIT_TYPE_USAGE_CTE@ + select_text(
            summary_columns(credit_counting("COUNT(*)::bigint"@, ""@)),
            CREDIT_SUMMARY_ROWS@,
        ),
        by_workspace: CREDIT_TYPE_USAGE_CTE@ + select_text(
            workspace_columns(credit_counting("COUNT(ul.id)::bigint"@, "ul."@)),
            CREDIT_WORKSPACE_ROWS@,
        ) + BY_REQUESTS@,
        by_api_key: CREDIT_TYPE_USAGE_CTE@ + select_text(
            api_key_columns(credit_counting("COUNT(ul.id)::bigint"@, "ul."@)),
            CREDIT_API_KEY_ROWS@,
        ) + BY_REQUESTS@,
        by_model: CREDIT_TYPE_USAGE_CTE@ + select_text(
            model_columns(credit_counting("COUNT(*)::bigint"@, "ul."@), credit_latency()),
            CREDIT_MODEL_ROWS@,
        ) + BY_REQUESTS@,
    }
}

fn push_usage_columns(columns: &mut Vec<Column>, requests: &str, prefix: &str, cost: &str)
    ensures
        columns_view(final(columns)@) == columns_view(old(columns)@) + usage_columns(
            (Counting { requests: requests@, prefix: prefix@, cost: cost@ }),
        ),
{
    let ghost before = columns_view(columns@);
    columns.push(computed(requests, "requests"));
    columns.push(computed(sum(prefix, "input_tokens").as_str(), "input_tokens"));
    columns.push(computed(sum(prefix, "output_tokens").as_str(), "output_tokens"));
    columns.push(computed(sum(prefix, "cache_read_tokens").as_str(), "cache_read_tokens"));
    columns.push(computed(sum(prefix, cost).as_str(), "cost_nano"));
    assert(columns_view(columns@) =~= before + usage_columns(
        Counting { requests: requests@, prefix: prefix@, cost: cost@ },
    ));
}

fn summary_query(requests: &str, prefix: &str, cost: &str, rows: &str) -> (r: String)
    ensures
        r@ == select_text(
            summary_columns((Counting { requests: requests@, prefix: prefix@, cost: cost@ })),
            rows@,
        ),
{
    let mut columns: Vec<Column> = Vec::new();
    push_usage_columns(&mut columns, requests, prefix, cost);
    columns.push(computed("COUNT(DISTINCT api_key_id)::bigint", "unique_api_keys"));
    assert(columns_view(columns@) =~= summary_columns(
        Counting { requests: requests@, prefix: prefix@, cost: cost@ },
    ));
    select(&columns, rows)
}

fn workspace_query(requests: &str, prefix: &str, cost: &str, rows: &str) -> (r: String)
    ensures
        r@ == select_text(
            workspace_columns((Counting { requests: requests@, prefix: prefix@, cost: cost@ })),
            rows@,
        ) + BY_REQUESTS@,
{
    let mut columns: Vec<Column> = Vec::new();
    columns.push(computed("w.id", "workspace_id"));
    columns.push(computed("w.name", "workspace_name"));
    push_usage_columns(&mut columns, requests, prefix, cost);
    assert(columns_view(columns@) =~= workspace_columns(
        Counting { requests: requests@, prefix: prefix@, cost: cost@ },
    ));
    let mut sql = select(&columns, rows);
    sql.append(BY_REQUESTS);
    sql
}

fn api_key_query(requests: &str, prefix: &str, cost: &str, rows: &str) -> (r: String)
    ensures
        r@ == select_text(
            api_key_columns((Counting { requests: requests@, prefix: prefix@, cost: cost@ })),
            rows@,
        ) + BY_REQUESTS@,
{
    let mut columns: Vec<Column> = Vec::new();
    columns.push(computed("ak.id", "api_key_id"));
    columns.push(computed("ak.name", "api_key_name"));
    columns.push(computed(requests, "requests"));
    columns.push(computed(sum(prefix, cost).as_str(), "cost_nano"));
    assert(columns_view(columns@) =~= api_key_columns(
        Counting { requests: requests@, prefix: prefix@, cost: cost@ },
    ));
    let mut sql = select(&columns, rows);
    sql.append(BY_REQUESTS);
    sql
}

fn model_query(requests: &str, prefix: &str, cost: &str, latency: &LatencyColumns, rows: &str) -> (r:
    String)
    ensures
        r@ == select_text(
            model_columns(
                (Counting { requests: requests@, prefix: prefix@, cost: cost@ }),
                latency@,
            ),
            rows@,
        ) + BY_REQUESTS@,
{
    let mut columns: Vec<Column> = Vec::new();
    columns.push(Column::Own { prefix: prefix.to_owned(), name: "model_name".to_owned() });
    assert(columns_view(columns@) =~= seq![
        ColumnView::Own { prefix: prefix@, name: "model_name"@ },
    ]);
    push_usage_columns(&mut columns, requests, prefix, cost);
    columns.push(computed(latency.avg_ttft.as_str(), "avg_ttft_ms"));
    columns.push(computed(latency.p95_ttft.as_str(), "p95_ttft_ms"));
    columns.push(computed(latency.avg_itl.as_str(), "avg_itl_ms"));
    columns.push(computed(latency.p95_itl.as_str(), "p95_itl_ms"));
    assert(columns_view(columns@) =~= model_columns(
        Counting { requests: requests@, prefix: prefix@, cost: cost@ },
        latency@,
    ));
    let mut sql = select(&columns, rows);
    sql.append(BY_REQUESTS);
    sql
}

/// The queries of a report on aggregated usage; each reads rows that are named
/// `usage_rows`.
pub fn hourly_metrics_sql(latency: &LatencyColumns) -> (r: MetricsSql)
    ensures
        r@ == hourly_statements(latency@),
{
    let requests = sum("uh.", "request_count");
    MetricsSql {
        summary: summary_query(
            sum("", "request_count").as_str(),
            "",
            "total_cost",
            HOURLY_SUMMARY_ROWS,
        ),
        by_workspace: workspace_query(
            requests.as_str(),
            "uh.",
            "total_cost",
            HOURLY_WORKSPACE_ROWS,
        ),
        by_api_key: api_key_query(requests.as_str(), "uh.", "total_cost", HOURLY_API_KEY_ROWS),
        by_model: model_query(requests.as_str(), "uh.", "total_cost", latency, HOURLY_MODEL_ROWS),
    }
}

fn credit_type_query(body: &str) -> (r: String)
    ensures
        r@ == CREDIT_TYPE_USAGE_CTE@ + body@,
{
    let mut sql = CREDIT_TYPE_USAGE_CTE.to_owned();
    sql.append(body);
    sql
}

/// The queries of a report on usage that one type of credit paid for.
pub fn credit_type_metrics_sql() -> (r: MetricsSql)
    ensures
        r@ == credit_type_statements(),
{
    let latency = LatencyColumns {
        avg_ttft: "AVG(ul.ttft_ms)::double precision".to_owned(),
        p95_ttft:
            "PERCENTILE_CONT(0.95) WITHIN GROUP (ORDER BY ul.ttft_ms)::double precision".to_owned(),
        avg_itl: "AVG(ul.avg_itl_ms)::double precision".to_owned(),
        p95_itl:
            "PERCENTILE_CONT(0.95) WITHIN GROUP (ORDER BY ul.avg_itl_ms)::double precision".to_owned(),
    };
    let summary = summary_query("COUNT(*)::bigint", "", "filtered_cost", CREDIT_SUMMARY_ROWS);
    let by_workspace = workspace_query(
        "COUNT(ul.id)::bigint",
        "ul.",
        "filtered_cost",
        CREDIT_WORKSPACE_ROWS,
    );
    let by_api_key = api_key_query(
        "COUNT(ul.id)::bigint",
        "ul.",
        "filtered_cost",
        CREDIT_API_KEY_ROWS,
    );
    let by_model = model_query(
        "COUNT(*)::bigint",
        "ul.",
        "filtered_cost",
        &latency,
        CREDIT_MODEL_ROWS,
    );
    let r = MetricsSql {
        summary: credit_type_query(summary.as_str()),
        by_workspace: credit_type_query(by_workspace.as_str()),
        by_api_key: credit_type_query(by_api_key.as_str()),
        by_model: credit_type_query(by_model.as_str()),
    };
    proof {
        let told = credit_type_statements();
        assert(r@.by_workspace =~= told.by_workspace);
        assert(r@.by_api_key =~= told.by_api_key);
        assert(r@.by_model =~= told.by_model);
    }
    r
}

/// Both sources of usage give the same columns in the same order: six on an
/// organization, seven on a workspace, four on a key and ten on a model.
pub proof fn law_both_sources_give_the_same_columns(latency: LatencyView)
    ensures
        column_names(summary_columns(hourly_counting(""@))) == column_names(
            summary_columns(credit_counting("COUNT(*)::bigint"@, ""@)),
        ),
        column_names(workspace_columns(hourly_counting("uh."@))) == column_names(
            workspace_columns(credit_counting("COUNT(ul.id)::bigint"@, "ul."@)),
        ),
        column_names(api_key_columns(hourly_counting("uh."@))) == column_names(
            api_key_columns(credit_counting("COUNT(ul.id)::bigint"@, "ul."@)),
        ),
        column_names(model_columns(hourly_counting("uh."@), latency)) == column_names(
            model_columns(credit_counting("COUNT(*)::bigint"@, "ul."@), credit_latency()),
        ),
        column_names(summary_columns(hourly_counting(""@))) == seq![
            "requests"@,
            "input_tokens"@,
            "output_tokens"@,
            "cache_read_tokens"@,
            "cost_nano"@,
            "unique_api_keys"@,
        ],
        column_names(workspace_columns(hourly_counting("uh."@))) == seq![
            "workspace_id"@,
            "workspace_name"@,
            "requests"@,
            "input_tokens"@,
            "output_tokens"@,
            "cache_read_tokens"@,
            "cost_nano"@,
        ],
        column_names(api_key_columns(hourly_counting("uh."@))) == seq![
            "api_key_id"@,
            "api_key_name"@,
            "requests"@,
            "cost_nano"@,
        ],
        column_names(model_columns(hourly_counting("uh."@), latency)) == seq![
            "model_name"@,
            "requests"@,
            "input_tokens"@,
            "output_tokens"@,
            "cache_read_tokens"@,
            "cost_nano"@,
            "avg_ttft_ms"@,
            "p95_ttft_ms"@,
            "avg_itl_ms"@,
            "p95_itl_ms"@,
        ],
{
}

/// Every query on usage that one type of credit paid for binds that type.
pub proof fn law_credit_type_queries_bind_the_type(unit: Seq<char>)
    ensures
        binds_credit_type(credit_type_statements().summary),
        binds_credit_type(credit_type_statements().by_workspace),
        binds_credit_type(credit_type_statements().by_api_key),
        binds_credit_type(credit_type_statements().by_model),
        binds_credit_type(series_text(UsageSource::CreditType, unit)),
{
    let told = credit_type_statements();
    let start = CREDIT_TYPE_USAGE_CTE@;
    assert(start.len() == 377 && start[248] == '$' && start[249] == '4') by {
        reveal_strlit(
            "WITH metric_usage AS ( SELECT ul.*, allocation.amount AS filtered_cost FROM organization_usage_log ul LEFT JOIN LATERAL ( SELECT SUM(a.amount)::BIGINT AS amount FROM usage_credit_allocations a WHERE a.inference_usage_id = ul.id AND a.credit_type = $4 ) allocation ON true WHERE ul.organization_id = $1 AND ul.created_at >= $2 AND ul.created_at < $3 AND allocation.amount > 0 ) ",
        );
    }
    lemma_binds_at(told.summary, 248);
    lemma_binds_at(told.by_workspace, 248);
    lemma_binds_at(told.by_api_key, 248);
    lemma_binds_at(told.by_model, 248);
    lemma_binds_at(series_text(UsageSource::CreditType, unit), 248);
}

proof fn lemma_usage_columns_bind_nothing(counting: Counting)
    requires
        !binds_credit_type(counting.requests),
        has_no_four(counting.prefix),
        has_no_four(counting.cost),
    ensures
        forall|k: int|
            0 <= k < usage_columns(counting).len() ==> binds_nothing(
                #[trigger] usage_columns(counting)[k],
            ),
{
    reveal_strlit("requests");
    reveal_strlit("input_tokens");
    reveal_strlit("output_tokens");
    reveal_strlit("cache_read_tokens");
    reveal_strlit("cost_nano");
    lemma_sum_binds_nothing(counting.prefix, "input_tokens"@);
    lemma_sum_binds_nothing(counting.prefix, "output_tokens"@);
    lemma_sum_binds_nothing(counting.prefix, "cache_read_tokens"@);
    lemma_sum_binds_nothing(counting.prefix, counting.cost);
}

proof fn lemma_hourly_counting(prefix: Seq<char>)
    requires
        has_no_four(prefix),
    ensures
        !binds_credit_type(hourly_counting(prefix).requests),
        has_no_four(hourly_counting(prefix).cost),
{
    reveal_strlit("request_count");
    reveal_strlit("total_cost");
    lemma_sum_binds_nothing(prefix, "request_count"@);
}

proof fn lemma_ordered_binds_nothing(query: Seq<char>)
    requires
        !binds_credit_type(query),
    ensures
        !binds_credit_type(query + BY_REQUESTS@),
{
    reveal_strlit(" ORDER BY requests DESC");
    let empty: Seq<char> = seq![];
    lemma_no_four(empty);
    lemma_joins(query, BY_REQUESTS@, empty);
    assert(query + BY_REQUESTS@ + empty =~= query + BY_REQUESTS@);
}

proof fn lemma_hourly_summary_binds_nothing(latency: LatencyView)
    ensures
        !binds_credit_type(hourly_statements(latency).summary),
{
    reveal_strlit("");
    reveal_strlit("COUNT(DISTINCT api_key_id)::bigint");
    reveal_strlit("unique_api_keys");
    reveal_strlit(" FROM usage_rows WHERE organization_id = $1");
    lemma_hourly_counting(""@);
    lemma_usage_columns_bind_nothing(hourly_counting(""@));
    lemma_no_four("COUNT(DISTINCT api_key_id)::bigint"@);
    let columns = summary_columns(hourly_counting(""@));
    assert forall|k: int| 0 <= k < columns.len() implies binds_nothing(#[trigger] columns[k]) by {
        if k < 5 {
            assert(columns[k] == usage_columns(hourly_counting(""@))[k]);
        }
    }
    lemma_select_binds_nothing(columns, HOURLY_SUMMARY_ROWS@);
}

proof fn lemma_hourly_workspaces_bind_nothing(latency: LatencyView)
    ensures
        !binds_credit_type(hourly_statements(latency).by_workspace),
{
    reveal_strlit("uh.");
    reveal_strlit("w.id");
    reveal_strlit("w.name");
    reveal_strlit("workspace_id");
    reveal_strlit("workspace_name");
    reveal_strlit(
        " FROM workspaces w LEFT JOIN usage_rows uh ON uh.workspace_id = w.id AND uh.organization_id = $1 WHERE w.organization_id = $1 GROUP BY w.id, w.name",
    );
    lemma_hourly_counting("uh."@);
    lemma_usage_columns_bind_nothing(hourly_counting("uh."@));
    lemma_no_four("w.id"@);
    lemma_no_four("w.name"@);
    let columns = workspace_columns(hourly_counting("uh."@));
    assert forall|k: int| 0 <= k < columns.len() implies binds_nothing(#[trigger] columns[k]) by {
        if k >= 2 {
            assert(columns[k] == usage_columns(hourly_counting("uh."@))[k - 2]);
        }
    }
    lemma_select_binds_nothing(columns, HOURLY_WORKSPACE_ROWS@);
    lemma_ordered_binds_nothing(select_text(columns, HOURLY_WORKSPACE_ROWS@));
}

proof fn lemma_hourly_keys_bind_nothing(latency: LatencyView)
    ensures
        !binds_credit_type(hourly_statements(latency).by_api_key),
{
    reveal_strlit("uh.");
    reveal_strlit("ak.id");
    reveal_strlit("ak.name");
    reveal_strlit("api_key_id");
    reveal_strlit("api_key_name");
    reveal_strlit("requests");
    reveal_strlit("cost_nano");
    reveal_strlit(
        " FROM api_keys ak LEFT JOIN usage_rows uh ON uh.api_key_id = ak.id AND uh.organization_id = $1 WHERE ak.workspace_id IN ( SELECT id FROM workspaces WHERE organization_id = $1 ) GROUP BY ak.id, ak.name",
    );
    lemma_hourly_counting("uh."@);
    lemma_sum_binds_nothing("uh."@, hourly_counting("uh."@).cost);
    lemma_no_four("ak.id"@);
    lemma_no_four("ak.name"@);
    let columns = api_key_columns(hourly_counting("uh."@));
    lemma_select_binds_nothing(columns, HOURLY_API_KEY_ROWS@);
    lemma_ordered_binds_nothing(select_text(columns, HOURLY_API_KEY_ROWS@));
}

proof fn lemma_hourly_models_bind_nothing(latency: LatencyView)
    requires
        !binds_credit_type(latency.avg_ttft),
        !binds_credit_type(latency.p95_ttft),
        !binds_credit_type(latency.avg_itl),
        !binds_credit_type(latency.p95_itl),
    ensures
        !binds_credit_type(hourly_statements(latency).by_model),
{
    reveal_strlit("uh.");
    reveal_strlit("model_name");
    reveal_strlit("avg_ttft_ms");
    reveal_strlit("p95_ttft_ms");
    reveal_strlit("avg_itl_ms");
    reveal_strlit("p95_itl_ms");
    reveal_strlit(" FROM usage_rows uh WHERE uh.organization_id = $1 GROUP BY uh.model_name");
    lemma_hourly_counting("uh."@);
    lemma_usage_columns_bind_nothing(hourly_counting("uh."@));
    let columns = model_columns(hourly_counting("uh."@), latency);
    assert forall|k: int| 0 <= k < columns.len() implies binds_nothing(#[trigger] columns[k]) by {
        if 1 <= k < 6 {
            assert(columns[k] == usage_columns(hourly_counting("uh."@))[k - 1]);
        }
    }
    lemma_select_binds_nothing(columns, HOURLY_MODEL_ROWS@);
    lemma_ordered_binds_nothing(select_text(columns, HOURLY_MODEL_ROWS@));
}

proof fn lemma_hourly_series_binds_nothing(granularity: Seq<char>)
    ensures
        !binds_credit_type(series_text(UsageSource::Hourly, bucket_unit(granularity))),
{
    let unit = bucket_unit(granularity);
    assert(has_no_four(unit)) by {
        reveal_strlit("hour");
        reveal_strlit("week");
        reveal_strlit("day");
    }
    assert(has_no_four(SERIES_SELECT@)) by {
        reveal_strlit("SELECT DATE_TRUNC('");
    }
    assert(has_no_four(HOURLY_SERIES_COLUMNS@)) by {
        reveal_strlit(
            "', hour)::text as date, COALESCE(SUM(request_count), 0)::bigint as requests, COALESCE(SUM(input_tokens), 0)::bigint as input_tokens, COALESCE(SUM(output_tokens), 0)::bigint as output_tokens, COALESCE(SUM(cache_read_tokens), 0)::bigint as cache_read_tokens, COALESCE(SUM(total_cost), 0)::bigint as cost_nano FROM usage_rows WHERE organization_id = $1 GROUP BY DATE_TRUNC('",
        );
    }
    assert(has_no_four(HOURLY_SERIES_END@)) by {
        reveal_strlit("', hour) ORDER BY date ASC");
    }
    lemma_no_four(series_text(UsageSource::Hourly, unit));
}

/// No query on aggregated usage binds a type of credit, as long as the
/// expressions for latencies do not.
pub proof fn law_hourly_queries_bind_no_credit_type(latency: LatencyView, granularity: Seq<char>)
    requires
        !binds_credit_type(latency.avg_ttft),
        !binds_credit_type(latency.p95_ttft),
        !binds_credit_type(latency.avg_itl),
        !binds_credit_type(latency.p95_itl),
    ensures
        !binds_credit_type(hourly_statements(latency).summary),
        !binds_credit_type(hourly_statements(latency).by_workspace),
        !binds_credit_type(hourly_statements(latency).by_api_key),
        !binds_credit_type(hourly_statements(latency).by_model),
        !binds_credit_type(series_text(UsageSource::Hourly, bucket_unit(granularity))),
{
    lemma_hourly_series_binds_nothing(granularity);
    lemma_hourly_summary_binds_nothing(latency);
    lemma_hourly_workspaces_bind_nothing(latency);
    lemma_hourly_keys_bind_nothing(latency);
    lemma_hourly_models_bind_nothing(latency);
}

/// On either source, the groups of a report come in the order of their requests.
pub proof fn law_groups_come_by_requests(latency: LatencyView)
    ensures
        BY_REQUESTS@.is_suffix_of(hourly_statements(latency).by_workspace),
        BY_REQUESTS@.is_suffix_of(hourly_statements(latency).by_api_key),
        BY_REQUESTS@.is_suffix_of(hourly_statements(latency).by_model),
        BY_REQUESTS@.is_suffix_of(credit_type_statements().by_workspace),
        BY_REQUESTS@.is_suffix_of(credit_type_statements().by_api_key),
        BY_REQUESTS@.is_suffix_of(credit_type_statements().by_model),
{
}

/// Where the usage of a report is read from.
#[derive(Debug, Clone, Copy, PartialEq, Eq, Structural)]
pub enum UsageSource {
    /// Usage by the hour, and single requests at the ends of the period.
    Hourly,
    /// Single requests, as far as one type of credit paid for them.
    CreditType,
}

/// Where the usage of a report is read from: a type of credit is known only of
/// single requests.
pub fn usage_source(credit_type: &Option<String>) -> (r: UsageSource)
    ensures
        r == (if credit_type is Some {
            UsageSource::CreditType
        } else {
            UsageSource::Hourly
        }),
{
    match credit_type {
        Some(_) => UsageSource::CreditType,
        None => UsageSource::Hourly,
    }
}

/// A value that is bound to a placeholder.
#[derive(Debug, Clone)]
pub enum WindowParam {
    Id(Uuid),
    Instant(Timestamp),
    Text(String),
}

/// The values that the queries of a report bind: the organization, the period,
/// and the type of credit where there is one.
pub fn bind(
    organization_id: Uuid,
    start: Timestamp,
    end: Timestamp,
    credit_type: &Option<String>,
) -> (r: Vec<WindowParam>)
    ensures
        r@ == seq![
            WindowParam::Id(organization_id),
            WindowParam::Instant(start),
            WindowParam::Instant(end),
        ] + (match *credit_type {
            Some(name) => seq![WindowParam::Text(name)],
            None => seq![],
        }),
{
    let mut params: Vec<WindowParam> = Vec::new();
    params.push(WindowParam::Id(organization_id));
    params.push(WindowParam::Instant(start));
    params.push(WindowParam::Instant(end));
    match credit_type {
        Some(name) => params.push(WindowParam::Text(name.clone())),
        None => {},
    }
    assert(params@ =~= seq![
        WindowParam::Id(organization_id),
        WindowParam::Instant(start),
        WindowParam::Instant(end),
    ] + (match *credit_type {
        Some(name) => seq![WindowParam::Text(name)],
        None => seq![],
    }));
    params
}

/// The name of an organization that exists.
pub fn organization_name(organization_id: Uuid, found: Option<String>) -> (r: Result<
    String,
    RepositoryError,
>)
    ensures
        match r {
            Ok(name) => found == Some(name),
            Err(e) => found is None && e@ == crate::error::RepositoryErrorView::NotFound(
                "Organization "@ + crate::ids::hyphenated(organization_id),
            ),
        },
{
    match found {
        Some(name) => Ok(name),
        None => {
            let mut message = "Organization ".to_owned();
            message.append(organization_id.to_text().as_str());
            Err(not_found(message.as_str()))
        },
    }
}

/// What an organization used in all; the cost is in billionths of a dollar.
#[derive(Debug, Clone, Copy, PartialEq, Eq, Structural)]
pub struct MetricsSummary {
    pub total_requests: i64,
    pub total_input_tokens: i64,
    pub total_output_tokens: i64,
    pub total_cache_read_tokens: i64,
    pub total_cost_nano: i64,
    pub unique_api_keys: i64,
}

/// What a workspace used.
#[derive(Debug, Clone)]
pub struct WorkspaceMetrics {
    pub workspace_id: Uuid,
    pub workspace_name: String,
    pub requests: i64,
    pub input_tokens: i64,
    pub output_tokens: i64,
    pub cache_read_tokens: i64,
    pub cost_nano: i64,
}

/// What was used with a key.
#[derive(Debug, Clone)]
pub struct ApiKeyMetrics {
    pub api_key_id: Uuid,
    pub api_key_name: String,
    pub requests: i64,
    pub cost_nano: i64,
}

/// What was used of a model.
#[derive(Debug, Clone)]
pub struct ModelMetrics {
    pub model_name: String,
    pub requests: i64,
    pub input_tokens: i64,
    pub output_tokens: i64,
    pub cache_read_tokens: i64,
    pub cost_nano: i64,
}

/// A report on an organization.
#[derive(Debug, Clone)]
pub struct OrganizationMetrics {
    pub organization_id: Uuid,
    pub organization_name: String,
    pub period_start: Timestamp,
    pub period_end: Timestamp,
    pub summary: MetricsSummary,
    pub by_workspace: Vec<WorkspaceMetrics>,
    pub by_api_key: Vec<ApiKeyMetrics>,
    pub by_model: Vec<ModelMetrics>,
}

/// Puts a report on an organization together; there is none on an organization
/// that does not exist.
pub fn get_organization_metrics(
    window: (Uuid, Timestamp, Timestamp),
    found_name: Option<String>,
    summary: MetricsSummary,
    by_workspace: Vec<WorkspaceMetrics>,
    by_api_key: Vec<ApiKeyMetrics>,
    by_model: Vec<ModelMetrics>,
) -> (r: Result<OrganizationMetrics, RepositoryError>)
    ensures
        match r {
            Ok(metrics) => {
                &&& metrics.organization_id == window.0
                &&& found_name == Some(metrics.organization_name)
                &&& metrics.period_start == window.1
                &&& metrics.period_end == window.2
                &&& metrics.summary == summary
                &&& metrics.by_workspace == by_workspace
                &&& metrics.by_api_key == by_api_key
                &&& metrics.by_model == by_model
            },
            Err(e) => found_name is None && e@ == crate::error::RepositoryErrorView::NotFound(
                "Organization "@ + crate::ids::hyphenated(window.0),
            ),
        },
{
    match organization_name(window.0, found_name) {
        Err(e) => Err(e),
        Ok(organization_name) => Ok(
            OrganizationMetrics {
                organization_id: window.0,
                organization_name,
                period_start: window.1,
                period_end: window.2,
                summary,
                by_workspace,
                by_api_key,
                by_model,
            },
        ),
    }
}

/// The unit of time that a report is divided into: days, unless another known
/// unit is asked for.
pub open spec fn bucket_unit(granularity: Seq<char>) -> Seq<char> {
    if granularity == "hour"@ {
        "hour"@
    } else if granularity == "week"@ {
        "week"@
    } else {
        "day"@
    }
}

/// The unit of time that a report is divided into.
pub fn date_trunc(granularity: &str) -> (r: &'static str)
    ensures
        r@ == bucket_unit(granularity@),
{
    if same_text(granularity, "hour") {
        "hour"
    } else if same_text(granularity, "week") {
        "week"
    } else {
        "day"
    }
}

pub const SERIES_SELECT: &'static str = "SELECT DATE_TRUNC('";

pub const HOURLY_SERIES_COLUMNS: &'static str =
    "', hour)::text as date, COALESCE(SUM(request_count), 0)::bigint as requests, COALESCE(SUM(input_tokens), 0)::bigint as input_tokens, COALESCE(SUM(output_tokens), 0)::bigint as output_tokens, COALESCE(SUM(cache_read_tokens), 0)::bigint as cache_read_tokens, COALESCE(SUM(total_cost), 0)::bigint as cost_nano FROM usage_rows WHERE organization_id = $1 GROUP BY DATE_TRUNC('";

pub const HOURLY_SERIES_END: &'static str = "', hour) ORDER BY date ASC";

pub const CREDIT_SERIES_COLUMNS: &'static str =
    "', created_at)::text as date, COUNT(*)::bigint as requests, COALESCE(SUM(input_tokens), 0)::bigint as input_tokens, COALESCE(SUM(output_tokens), 0)::bigint as output_tokens, COALESCE(SUM(cache_read_tokens), 0)::bigint as cache_read_tokens, COALESCE(SUM(filtered_cost), 0)::bigint as cost_nano FROM metric_usage GROUP BY DATE_TRUNC('";

pub const CREDIT_SERIES_END: &'static str = "', created_at) ORDER BY date ASC";

/// The query for usage over time, on the source that the report reads.
pub open spec fn series_text(source: UsageSource, unit: Seq<char>) -> Seq<char> {
    match source {
        UsageSource::Hourly => SERIES_SELECT@ + unit + HOURLY_SERIES_COLUMNS@ + unit
            + HOURLY_SERIES_END@,
        UsageSource::CreditType => CREDIT_TYPE_USAGE_CTE@ + SERIES_SELECT@ + unit
            + CREDIT_SERIES_COLUMNS@ + unit + CREDIT_SERIES_END@,
    }
}

/// The query for usage over time.
pub fn timeseries_query(source: UsageSource, granularity: &str) -> (r: String)
    ensures
        r@ == series_text(source, bucket_unit(granularity@)),
{
    let unit = date_trunc(granularity);
    match source {
        UsageSource::Hourly => {
            let mut sql = SERIES_SELECT.to_owned();
            sql.append(unit);
            sql.append(HOURLY_SERIES_COLUMNS);
            sql.append(unit);
            sql.append(HOURLY_SERIES_END);
            sql
        },
        UsageSource::CreditType => {
            let mut sql = CREDIT_TYPE_USAGE_CTE.to_owned();
            sql.append(SERIES_SELECT);
            sql.append(unit);
            sql.append(CREDIT_SERIES_COLUMNS);
            sql.append(unit);
            sql.append(CREDIT_SERIES_END);
            sql
        },
    }
}

/// Hours and weeks are asked for by name; anything else means days.
pub proof fn law_units_are_read_by_name(granularity: Seq<char>)
    ensures
        bucket_unit("hour"@) == "hour"@,
        bucket_unit("week"@) == "week"@,
        granularity != "hour"@ && granularity != "week"@ ==> bucket_unit(granularity) == "day"@,
{
    reveal_strlit("hour");
    reveal_strlit("week");
    assert("hour"@[0] == 'h' && "week"@[0] == 'w');
}

/// What a report reads, by name and in order: six columns on an organization,
/// seven on a workspace, four on a key and ten on a model.
pub proof fn law_reports_read_these_columns(counting: Counting, latency: LatencyView)
    ensures
        column_names(summary_columns(counting)) == seq![
            "requests"@,
            "input_tokens"@,
            "output_tokens"@,
            "cache_read_tokens"@,
            "cost_nano"@,
            "unique_api_keys"@,
        ],
        column_names(workspace_columns(counting)) == seq![
            "workspace_id"@,
            "workspace_name"@,
            "requests"@,
            "input_tokens"@,
            "output_tokens"@,
            "cache_read_tokens"@,
            "cost_nano"@,
        ],
        column_names(api_key_columns(counting)) == seq![
            "api_key_id"@,
            "api_key_name"@,
            "requests"@,
            "cost_nano"@,
        ],
        column_names(model_columns(counting, latency)) == seq![
            "model_name"@,
            "requests"@,
            "input_tokens"@,
            "output_tokens"@,
            "cache_read_tokens"@,
            "cost_nano"@,
            "avg_ttft_ms"@,
            "p95_ttft_ms"@,
            "avg_itl_ms"@,
            "p95_itl_ms"@,
        ],
{
}

/// Each column is the sum, the count or the latency that its name says, over the
/// columns of the source.
pub proof fn law_columns_hold_what_their_name_says(counting: Counting, latency: LatencyView)
    ensures
        ({
            let summary = summary_columns(counting);
            let workspace = workspace_columns(counting);
            let key = api_key_columns(counting);
            let model = model_columns(counting, latency);
            let summed = |column: Seq<char>|
                "COALESCE(SUM("@ + counting.prefix + column + "), 0)::bigint"@;
            &&& summary[0].text() == counting.requests + " as "@ + "requests"@
            &&& summary[1].text() == summed("input_tokens"@) + " as "@ + "input_tokens"@
            &&& summary[2].text() == summed("output_tokens"@) + " as "@ + "output_tokens"@
            &&& summary[3].text() == summed("cache_read_tokens"@) + " as "@ + "cache_read_tokens"@
            &&& summary[4].text() == summed(counting.cost) + " as "@ + "cost_nano"@
            &&& summary[5].text() == "COUNT(DISTINCT api_key_id)::bigint"@ + " as "@
                + "unique_api_keys"@
            &&& workspace[0].text() == "w.id"@ + " as "@ + "workspace_id"@
            &&& workspace[1].text() == "w.name"@ + " as "@ + "workspace_name"@
            &&& workspace.skip(2) == summary.take(5)
            &&& key[0].text() == "ak.id"@ + " as "@ + "api_key_id"@
            &&& key[1].text() == "ak.name"@ + " as "@ + "api_key_name"@
            &&& key[2] == summary[0]
            &&& key[3] == summary[4]
            &&& model[0].text() == counting.prefix + "model_name"@
            &&& model.subrange(1, 6) == summary.take(5)
            &&& model[6].text() == latency.avg_ttft + " as "@ + "avg_ttft_ms"@
            &&& model[7].text() == latency.p95_ttft + " as "@ + "p95_ttft_ms"@
            &&& model[8].text() == latency.avg_itl + " as "@ + "avg_itl_ms"@
            &&& model[9].text() == latency.p95_itl + " as "@ + "p95_itl_ms"@
        }),
{
    assert(workspace_columns(counting).skip(2) =~= summary_columns(counting).take(5));
    assert(model_columns(counting, latency).subrange(1, 6) =~= summary_columns(counting).take(5));
}

/// Aggregated usage is counted by its hours, and single requests one by one; each
/// source is charged by its own cost.
pub proof fn law_sources_are_counted_in_their_own_way(
    latency: LatencyView,
    prefix: Seq<char>,
    requests: Seq<char>,
)
    ensures
        hourly_counting(prefix) == (Counting {
            requests: "COALESCE(SUM("@ + prefix + "request_count"@ + "), 0)::bigint"@,
            prefix,
            cost: "total_cost"@,
        }),
        credit_counting(requests, prefix) == (Counting {
            requests,
            prefix,
            cost: "filtered_cost"@,
        }),
        credit_latency().avg_ttft == "AVG(ul.ttft_ms)::double precision"@,
        credit_latency().avg_itl == "AVG(ul.avg_itl_ms)::double precision"@,
        credit_latency().p95_ttft
            == "PERCENTILE_CONT(0.95) WITHIN GROUP (ORDER BY ul.ttft_ms)::double precision"@,
        credit_latency().p95_itl
            == "PERCENTILE_CONT(0.95) WITHIN GROUP (ORDER BY ul.avg_itl_ms)::double precision"@,
        hourly_statements(latency).summary == select_text(
            summary_columns(hourly_counting(""@)),
            HOURLY_SUMMARY_ROWS@,
        ),
        hourly_statements(latency).by_workspace == select_text(
            workspace_columns(hourly_counting("uh."@)),
            HOURLY_WORKSPACE_ROWS@,
        ) + BY_REQUESTS@,
        hourly_statements(latency).by_api_key == select_text(
            api_key_columns(hourly_counting("uh."@)),
            HOURLY_API_KEY_ROWS@,
        ) + BY_REQUESTS@,
        hourly_statements(latency).by_model == select_text(
            model_columns(hourly_counting("uh."@), latency),
            HOURLY_MODEL_ROWS@,
        ) + BY_REQUESTS@,
        credit_type_statements().summary == CREDIT_TYPE_USAGE_CTE@ + select_text(
            summary_columns(credit_counting("COUNT(*)::bigint"@, ""@)),
            CREDIT_SUMMARY_ROWS@,
        ),
        credit_type_statements().by_workspace == CREDIT_TYPE_USAGE_CTE@ + select_text(
            workspace_columns(credit_counting("COUNT(ul.id)::bigint"@, "ul."@)),
            CREDIT_WORKSPACE_ROWS@,
        ) + BY_REQUESTS@,
        credit_type_statements().by_api_key == CREDIT_TYPE_USAGE_CTE@ + select_text(
            api_key_columns(credit_counting("COUNT(ul.id)::bigint"@, "ul."@)),
            CREDIT_API_KEY_ROWS@,
        ) + BY_REQUESTS@,
        credit_type_statements().by_model == CREDIT_TYPE_USAGE_CTE@ + select_text(
            model_columns(credit_counting("COUNT(*)::bigint"@, "ul."@), credit_latency()),
            CREDIT_MODEL_ROWS@,
        ) + BY_REQUESTS@,
{
}

/// A report over time is grouped by the unit that it is divided into, whatever
/// source it reads.
pub proof fn law_series_are_grouped_by_their_unit(unit: Seq<char>)
    ensures
        series_text(UsageSource::Hourly, unit) == "SELECT DATE_TRUNC('"@ + unit
            + HOURLY_SERIES_COLUMNS@ + unit + "', hour) ORDER BY date ASC"@,
        series_text(UsageSource::CreditType, unit) == CREDIT_TYPE_USAGE_CTE@
            + "SELECT DATE_TRUNC('"@ + unit + CREDIT_SERIES_COLUMNS@ + unit
            + "', created_at) ORDER BY date ASC"@,
{
}

/// A window binds its organization, its beginning and its end, in this order, and
/// then the type of credit, exactly where the source that it reads needs one.
pub proof fn law_windows_bind_what_their_source_needs(
    organization_id: Uuid,
    start: Timestamp,
    end: Timestamp,
    credit_type: Option<String>,
    source: UsageSource,
    r: Vec<WindowParam>,
)
    requires
        call_ensures(bind, (organization_id, start, end, &credit_type), r),
        call_ensures(usage_source, (&credit_type,), source),
    ensures
        r@[0] == WindowParam::Id(organization_id),
        r@[1] == WindowParam::Instant(start),
        r@[2] == WindowParam::Instant(end),
        source == UsageSource::Hourly ==> r@.len() == 3 && credit_type is None,
        source == UsageSource::CreditType ==> r@.len() == 4 && (credit_type matches Some(name)
            && r@[3] == WindowParam::Text(name)),
{
}

} // verus!

use database::analytics::consumption::{
    bucket_query, get_model_consumption_timeseries, performance_query, ConsumptionRow,
};
use database::analytics::organization::{
    bind, credit_type_metrics_sql, date_trunc, get_organization_metrics, hourly_metrics_sql,
    timeseries_query, usage_source, LatencyColumns, MetricsSummary, UsageSource, WindowParam,
};
use database::analytics::platform::{
    date_trunc as platform_date_trunc, get_platform_metrics, get_platform_timeseries, signup_query,
    usage_query, PlatformCounts, PlatformUsage, Share, SignupBucket, UsageBucket,
};
use database::analytics::provider_attribution::{
    get_platform_provider_usage, load_model_provider_breakdowns, BreakdownRow,
    ModelProviderRevenueBreakdown, ProviderUsageRow, ProviderUsageTotals,
};
use database::analytics::revenue::{
    get_model_revenue, get_org_revenue, model_count_query, model_revenue_query, org_count_query,
    org_revenue_query, search_pattern, ModelRevenueRow, OrgRevenueRow, RevenuePage, RevenueSort,
};
use database::error::RepositoryError;
use database::ids::Uuid;
use database::time::Timestamp;

const NOW: Timestamp = Timestamp {
    seconds: 1_700_000_000,
    nanos: 0,
};

fn totals(requests: i64) -> ProviderUsageTotals {
    ProviderUsageTotals {
        requests,
        input_tokens: 1,
        output_tokens: 2,
        total_tokens: 3,
        cache_read_tokens: 4,
        cost_nano: 5,
    }
}

fn usage_row(grouping_set: i32, requests: i64) -> ProviderUsageRow {
    ProviderUsageRow {
        grouping_set,
        served_via_fallback: None,
        served_provider_type: None,
        served_provider_tier: None,
        totals: totals(requests),
    }
}

#[test]
fn provider_usage_is_sorted_by_grouping() {
    let mut with_fallback = usage_row(3, 10);
    with_fallback.served_via_fallback = Some(true);
    let mut without = usage_row(3, 20);
    without.served_via_fallback = Some(false);
    let mut kind = usage_row(5, 30);
    kind.served_provider_type = Some("vllm".to_string());
    let unknown_tier = usage_row(6, 40);
    let usage =
        get_platform_provider_usage(&vec![with_fallback, without, kind, unknown_tier]).unwrap();
    assert_eq!(usage.fallback.requests, 10);
    assert_eq!(usage.non_fallback.requests, 20);
    assert_eq!(
        usage.by_provider_type[0].provider_type.as_deref(),
        Some("vllm")
    );
    assert_eq!(usage.by_provider_tier[0].provider_tier, None);
    assert!(matches!(
        get_platform_provider_usage(&vec![usage_row(-7, 1)]),
        Err(RepositoryError::DatabaseError(m)) if m == "unexpected provider usage grouping set -7"
    ));
}

fn breakdown(model: &str, requests: i64) -> BreakdownRow {
    BreakdownRow {
        model_name: model.to_string(),
        breakdown: ModelProviderRevenueBreakdown {
            provider_type: None,
            provider_tier: None,
            served_via_fallback: false,
            requests,
            tokens: 0,
            cost_nano: 0,
        },
    }
}

#[test]
fn breakdowns_come_with_their_model() {
    let names = vec!["a".to_string(), "b".to_string(), "a".to_string()];
    let rows = vec![breakdown("a", 1), breakdown("c", 2), breakdown("a", 3)];
    let lists = load_model_provider_breakdowns(&names, &rows);
    let requests: Vec<Vec<i64>> = lists
        .iter()
        .map(|list| list.iter().map(|b| b.requests).collect())
        .collect();
    assert_eq!(requests, [vec![1, 3], vec![], vec![]]);
}

#[test]
fn platform_reports_hold_what_was_counted() {
    let provider_usage = get_platform_provider_usage(&Vec::new()).unwrap();
    let counts = PlatformCounts {
        total_users: 1,
        total_organizations: 2,
        new_users: 3,
        new_organizations: 4,
        paying_organizations: 5,
    };
    let usage = PlatformUsage {
        requests: 10,
        cost_nano: 11,
        total_tokens: 12,
        cache_read_tokens: 13,
        active_organizations: 14,
        verifiable_nano: 15,
        verifiable_requests: 16,
        external_nano: 17,
        external_requests: 18,
        error_count: 2,
        incomplete_count: 3,
    };
    let report = get_platform_metrics(
        (NOW, NOW),
        NOW,
        counts,
        usage,
        provider_usage.clone(),
        Vec::new(),
        Vec::new(),
    );
    assert_eq!(report.total_consumed_nano, 11);
    assert_eq!(report.non_verifiable_requests, 18);
    assert_eq!(
        report.provider_error_or_timeout_share,
        Some(Share { part: 2, whole: 10 })
    );
    assert_eq!(
        report.incomplete_stream_share,
        Some(Share { part: 3, whole: 10 })
    );
    let idle = PlatformUsage {
        requests: 0,
        ..usage
    };
    let report = get_platform_metrics(
        (NOW, NOW),
        NOW,
        counts,
        idle,
        provider_usage,
        Vec::new(),
        Vec::new(),
    );
    assert_eq!(report.provider_error_or_timeout_share, None);
}

#[test]
fn units_of_time_are_merged_in_order() {
    let usage = |date: &str, requests: i64| UsageBucket {
        date: date.to_string(),
        requests,
        tokens: 2,
        cost_nano: 3,
        verifiable_nano: 4,
        non_verifiable_nano: 5,
        active_organizations: 6,
    };
    let signups = |date: &str, count: i64| SignupBucket {
        date: date.to_string(),
        count,
    };
    let points = get_platform_timeseries(
        &vec![usage("2026-01-02", 10), usage("2026-01-04", 20)],
        &vec![signups("2026-01-01", 1), signups("2026-01-02", 2)],
        &vec![signups("2026-01-03", 3), signups("2026-01-02", 4)],
    );
    let shown: Vec<(&str, i64, i64, i64)> = points
        .iter()
        .map(|(date, v)| (date.as_str(), v.requests, v.new_organizations, v.new_users))
        .collect();
    assert_eq!(
        shown,
        [
            ("2026-01-01", 0, 1, 0),
            ("2026-01-02", 10, 2, 4),
            ("2026-01-03", 0, 0, 3),
            ("2026-01-04", 20, 0, 0)
        ]
    );
    assert_eq!(platform_date_trunc("month"), "month");
    assert_eq!(platform_date_trunc("year"), "day");
    assert!(usage_query("week").contains("DATE_TRUNC('week', ul.created_at)::text as bucket"));
    assert_eq!(
        signup_query("users", "hour"),
        "SELECT DATE_TRUNC('hour', created_at)::text as bucket, COUNT(*)::bigint FROM users WHERE created_at >= $1 AND created_at < $2 GROUP BY DATE_TRUNC('hour', created_at)"
    );
}

#[test]
fn labels_are_ranked_by_cost_with_the_rest_last() {
    let row = |label: &str, cost_nano: i64| ConsumptionRow {
        bucket: "2026-01-01".to_string(),
        model_label: label.to_string(),
        cost_nano,
        requests: 1,
        tokens: 1,
    };
    let labels = get_model_consumption_timeseries(&vec![
        row("Other", 1_000),
        row("small", 5),
        row("big", 30),
        row("small", 10),
        row("also", 15),
    ]);
    assert_eq!(labels, ["big", "also", "small", "Other"]);
    assert!(get_model_consumption_timeseries(&Vec::new()).is_empty());
    assert!(bucket_query("day").starts_with("SELECT DATE_TRUNC('day', ul.created_at)::text"));
    assert!(performance_query("hour").contains("($3::text IS NULL OR ul.model_name = $3)"));
}

#[test]
fn organization_reports_choose_their_source() {
    assert_eq!(usage_source(&None), UsageSource::Hourly);
    let grant = Some("grant".to_string());
    assert_eq!(usage_source(&grant), UsageSource::CreditType);
    assert_eq!(bind(Uuid { value: 1 }, NOW, NOW, &None).len(), 3);
    assert!(matches!(
        &bind(Uuid { value: 1 }, NOW, NOW, &grant)[3],
        WindowParam::Text(name) if name == "grant"
    ));
    assert_eq!(date_trunc("month"), "day");
    assert_eq!(date_trunc("week"), "week");
    let query = timeseries_query(UsageSource::CreditType, "hour");
    assert!(query.starts_with("WITH metric_usage AS ("));
    assert!(query.ends_with("GROUP BY DATE_TRUNC('hour', created_at) ORDER BY date ASC"));
    assert!(timeseries_query(UsageSource::Hourly, "other")
        .starts_with("SELECT DATE_TRUNC('day', hour)::text as date"));
    assert!(credit_type_metrics_sql()
        .by_model
        .contains("FROM metric_usage ul GROUP BY ul.model_name"));
    let latency = LatencyColumns {
        avg_ttft: "A".to_string(),
        p95_ttft: "B".to_string(),
        avg_itl: "C".to_string(),
        p95_itl: "D".to_string(),
    };
    assert!(hourly_metrics_sql(&latency).by_model.contains(
        "A as avg_ttft_ms, B as p95_ttft_ms, C as avg_itl_ms, D as p95_itl_ms FROM usage_rows uh"
    ));
    let summary = MetricsSummary {
        total_requests: 1,
        total_input_tokens: 2,
        total_output_tokens: 3,
        total_cache_read_tokens: 4,
        total_cost_nano: 5,
        unique_api_keys: 6,
    };
    let window = (Uuid { value: 0 }, NOW, NOW);
    let report = get_organization_metrics(
        window,
        Some("org".to_string()),
        summary,
        Vec::new(),
        Vec::new(),
        Vec::new(),
    )
    .unwrap();
    assert_eq!(report.organization_name, "org");
    assert!(matches!(
        get_organization_metrics(window, None, summary, Vec::new(), Vec::new(), Vec::new()),
        Err(RepositoryError::NotFound(m)) if m == "Organization 00000000-0000-0000-0000-000000000000"
    ));
}

#[test]
fn both_sources_report_the_same_columns() {
    let latency = LatencyColumns {
        avg_ttft: "A".to_string(),
        p95_ttft: "B".to_string(),
        avg_itl: "C".to_string(),
        p95_itl: "D".to_string(),
    };
    let hourly = hourly_metrics_sql(&latency);
    let credit = credit_type_metrics_sql();
    assert_eq!(
        hourly.summary,
        "SELECT COALESCE(SUM(request_count), 0)::bigint as requests, COALESCE(SUM(input_tokens), 0)::bigint as input_tokens, COALESCE(SUM(output_tokens), 0)::bigint as output_tokens, COALESCE(SUM(cache_read_tokens), 0)::bigint as cache_read_tokens, COALESCE(SUM(total_cost), 0)::bigint as cost_nano, COUNT(DISTINCT api_key_id)::bigint as unique_api_keys FROM usage_rows WHERE organization_id = $1"
    );
    assert!(credit.by_model.ends_with(
        "SELECT ul.model_name, COUNT(*)::bigint as requests, COALESCE(SUM(ul.input_tokens), 0)::bigint as input_tokens, COALESCE(SUM(ul.output_tokens), 0)::bigint as output_tokens, COALESCE(SUM(ul.cache_read_tokens), 0)::bigint as cache_read_tokens, COALESCE(SUM(ul.filtered_cost), 0)::bigint as cost_nano, AVG(ul.ttft_ms)::double precision as avg_ttft_ms, PERCENTILE_CONT(0.95) WITHIN GROUP (ORDER BY ul.ttft_ms)::double precision as p95_ttft_ms, AVG(ul.avg_itl_ms)::double precision as avg_itl_ms, PERCENTILE_CONT(0.95) WITHIN GROUP (ORDER BY ul.avg_itl_ms)::double precision as p95_itl_ms FROM metric_usage ul GROUP BY ul.model_name ORDER BY requests DESC"
    ));
    let names = |sql: &str| -> Vec<String> {
        let start = sql.find(" ) SELECT ").map(|at| at + 3).unwrap_or(0);
        let list = sql[start..].strip_prefix("SELECT ").unwrap();
        list[..list.find(" FROM ").unwrap()]
            .split(", ")
            .filter(|part| !part.starts_with("COALESCE"))
            .map(|part| part.rsplit([' ', '.']).next().unwrap().to_string())
            .collect()
    };
    for (left, right, count) in [
        (&hourly.summary, &credit.summary, 6),
        (&hourly.by_workspace, &credit.by_workspace, 7),
        (&hourly.by_api_key, &credit.by_api_key, 4),
        (&hourly.by_model, &credit.by_model, 10),
    ] {
        assert_eq!(names(left), names(right));
        assert_eq!(names(left).len(), count);
        assert!(right.contains("$4"));
        assert!(!left.contains("$4"));
    }
    for sql in [
        &hourly.by_workspace,
        &hourly.by_api_key,
        &hourly.by_model,
        &credit.by_workspace,
        &credit.by_api_key,
        &credit.by_model,
    ] {
        assert!(sql.ends_with(" ORDER BY requests DESC"));
    }
}

#[test]
fn revenue_is_reported_by_page() {
    let row = |name: &str, verifiable: Option<bool>| ModelRevenueRow {
        model_name: name.to_string(),
        revenue_nano: 7,
        requests: 1,
        tokens: 2,
        unique_orgs: 3,
        verifiable,
        provider_type: None,
        fallback_requests: 4,
        fallback_cost_nano: 5,
    };
    let page = RevenuePage {
        start: NOW,
        end: NOW,
        limit: 10,
        offset: 20,
    };
    let report = get_model_revenue(
        page,
        &vec![row("a", None), row("b", Some(true))],
        22,
        &vec![breakdown("b", 9)],
    );
    assert_eq!(report.total, 22);
    assert_eq!(report.offset, 20);
    assert!(!report.data[0].verifiable);
    assert!(report.data[1].verifiable);
    assert!(report.data[0].served_provider_breakdown.is_empty());
    assert_eq!(report.data[1].served_provider_breakdown[0].requests, 9);
    assert_eq!(report.data[1].model_name, "b");
    assert_eq!(
        search_pattern(&Some("ll_m".to_string())).as_deref(),
        Some("%ll_m%")
    );
    assert_eq!(search_pattern(&None), None);
    assert!(model_revenue_query(RevenueSort::Tokens, "X", "Y")
        .ends_with("GROUP BY uh.model_name ORDER BY tokens DESC LIMIT $6 OFFSET $7"));
    assert!(model_count_query().ends_with("GROUP BY uh.model_name) t"));
    assert_eq!(
        org_revenue_query("BODY", RevenueSort::Revenue),
        "BODY ORDER BY revenue_nano DESC LIMIT $5 OFFSET $6"
    );
    assert_eq!(
        org_count_query("BODY"),
        "SELECT COUNT(*)::bigint FROM (BODY) t"
    );
    let entry = get_org_revenue(OrgRevenueRow {
        organization_id: Uuid { value: 1 },
        organization_name: "o".to_string(),
        revenue_nano: 1,
        verifiable_nano: 2,
        external_nano: 3,
        requests: 4,
        tokens: 5,
        models_used: 6,
        is_paying: None,
        last_usage_at: None,
    });
    assert!(!entry.is_paying);
    assert_eq!(entry.non_verifiable_consumed_nano, 3);
}

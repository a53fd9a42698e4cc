//! Reports on the whole platform.
use crate::analytics::provider_attribution::PlatformProviderUsage;
use crate::ids::Uuid;
use crate::text::same_text;
use crate::text_map::TextMap;
use crate::time::Timestamp;
use vstd::prelude::*;
use vstd::string::StringExecFns;

verus! {

/// How many users and organizations there are.
#[derive(Debug, Clone, Copy, PartialEq, Eq, Structural)]
pub struct PlatformCounts {
    pub total_users: i64,
    pub total_organizations: i64,
    pub new_users: i64,
    pub new_organizations: i64,
    pub paying_organizations: i64,
}

/// What was used in a period; costs are in billionths of a dollar.
#[derive(Debug, Clone, Copy, PartialEq, Eq, Structural)]
pub struct PlatformUsage {
    pub requests: i64,
    pub cost_nano: i64,
    pub total_tokens: i64,
    pub cache_read_tokens: i64,
    pub active_organizations: i64,
    pub verifiable_nano: i64,
    pub verifiable_requests: i64,
    pub external_nano: i64,
    pub external_requests: i64,
    pub error_count: i64,
    pub incomplete_count: i64,
}

/// A part of a whole that is not empty.
#[derive(Debug, Clone, Copy, PartialEq, Eq, Structural)]
pub struct Share {
    pub part: i64,
    pub whole: i64,
}

/// A part of all requests; where there were none there is no share.
pub open spec fn share_of(part: i64, requests: i64) -> Option<Share> {
    if requests > 0 {
        Some(Share { part, whole: requests })
    } else {
        None
    }
}

fn share(part: i64, requests: i64) -> (r: Option<Share>)
    ensures
        r == share_of(part, requests),
{
    if requests > 0 {
        Some(Share { part, whole: requests })
    } else {
        None
    }
}

/// A model that was used much.
#[derive(Debug, Clone)]
pub struct TopModelMetrics {
    pub model_name: String,
    pub requests: i64,
    pub revenue_nano: i64,
}

/// An organization that spent much.
#[derive(Debug, Clone)]
pub struct TopOrganizationMetrics {
    pub organization_id: Uuid,
    pub organization_name: String,
    pub requests: i64,
    pub spend_nano: i64,
}

/// A report on the platform.
#[derive(Debug, Clone)]
pub struct PlatformMetrics {
    pub period_start: Timestamp,
    pub period_end: Timestamp,
    pub generated_at: Timestamp,
    pub total_users: i64,
    pub total_organizations: i64,
    pub total_requests: i64,
    pub total_consumed_nano: i64,
    pub total_tokens: i64,
    pub total_cache_read_tokens: i64,
    pub new_users: i64,
    pub new_organizations: i64,
    pub active_organizations: i64,
    pub paying_organizations: i64,
    pub verifiable_consumed_nano: i64,
    pub verifiable_requests: i64,
    pub non_verifiable_consumed_nano: i64,
    pub non_verifiable_requests: i64,
    pub provider_error_or_timeout_share: Option<Share>,
    pub incomplete_stream_share: Option<Share>,
    pub provider_usage: PlatformProviderUsage,
    pub top_models: Vec<TopModelMetrics>,
    pub top_organizations: Vec<TopOrganizationMetrics>,
}

/// Puts a report on the platform together.
pub fn get_platform_metrics(
    period: (Timestamp, Timestamp),
    generated_at: Timestamp,
    counts: PlatformCounts,
    usage: PlatformUsage,
    provider_usage: PlatformProviderUsage,
    top_models: Vec<TopModelMetrics>,
    top_organizations: Vec<TopOrganizationMetrics>,
) -> (r: PlatformMetrics)
    ensures
        r.period_start == period.0,
        r.period_end == period.1,
        r.generated_at == generated_at,
        r.total_users == counts.total_users,
        r.total_organizations == counts.total_organizations,
        r.new_users == counts.new_users,
        r.new_organizations == counts.new_organizations,
        r.paying_organizations == counts.paying_organizations,
        r.total_requests == usage.requests,
        r.total_consumed_nano == usage.cost_nano,
        r.total_tokens == usage.total_tokens,
        r.total_cache_read_tokens == usage.cache_read_tokens,
        r.active_organizations == usage.active_organizations,
        r.verifiable_consumed_nano == usage.verifiable_nano,
        r.verifiable_requests == usage.verifiable_requests,
        r.non_verifiable_consumed_nano == usage.external_nano,
        r.non_verifiable_requests == usage.external_requests,
        r.provider_error_or_timeout_share == share_of(usage.error_count, usage.requests),
        r.incomplete_stream_share == share_of(usage.incomplete_count, usage.requests),
        r.provider_usage == provider_usage,
        r.top_models == top_models,
        r.top_organizations == top_organizations,
{
    PlatformMetrics {
        period_start: period.0,
        period_end: period.1,
        generated_at,
        total_users: counts.total_users,
        total_organizations: counts.total_organizations,
        total_requests: usage.requests,
        total_consumed_nano: usage.cost_nano,
        total_tokens: usage.total_tokens,
        total_cache_read_tokens: usage.cache_read_tokens,
        new_users: counts.new_users,
        new_organizations: counts.new_organizations,
        active_organizations: usage.active_organizations,
        paying_organizations: counts.paying_organizations,
        verifiable_consumed_nano: usage.verifiable_nano,
        verifiable_requests: usage.verifiable_requests,
        non_verifiable_consumed_nano: usage.external_nano,
        non_verifiable_requests: usage.external_requests,
        provider_error_or_timeout_share: share(usage.error_count, usage.requests),
        incomplete_stream_share: share(usage.incomplete_count, usage.requests),
        provider_usage,
        top_models,
        top_organizations,
    }
}

/// The unit of time that a report is divided into: days, unless another known
/// unit is asked for.
pub open spec fn bucket_unit(granularity: Seq<char>) -> Seq<char> {
    if granularity == "hour"@ {
        "hour"@
    } else if granularity == "week"@ {
        "week"@
    } else if granularity == "month"@ {
        "month"@
    } else {
        "day"@
    }
}

/// The unit of time that a report is divided into.
pub fn date_trunc(granularity: &str) -> (r: &'static str)
    ensures
        r@ == bucket_unit(granularity@),
{
    if same_text(granularity, "hour") {
        "hour"
    } else if same_text(granularity, "week") {
        "week"
    } else if same_text(granularity, "month") {
        "month"
    } else {
        "day"
    }
}

pub const USAGE_SELECT: &'static str = "SELECT DATE_TRUNC('";

pub const USAGE_COLUMNS: &'static str =
    "', ul.created_at)::text as bucket, COUNT(*)::bigint as requests, (COALESCE(SUM(ul.input_tokens), 0) + COALESCE(SUM(ul.output_tokens), 0))::bigint as tokens, COALESCE(SUM(ul.total_cost), 0)::bigint as cost_nano, COALESCE(SUM(ul.total_cost) FILTER (WHERE COALESCE(m.verifiable, false)), 0)::bigint as verifiable_nano, COALESCE(SUM(ul.total_cost) FILTER (WHERE NOT COALESCE(m.verifiable, false)), 0)::bigint as external_nano, COUNT(DISTINCT ul.organization_id)::bigint as active_orgs FROM organization_usage_log ul LEFT JOIN models m ON m.id = ul.model_id WHERE ul.created_at >= $1 AND ul.created_at < $2 GROUP BY DATE_TRUNC('";

pub const USAGE_ORDER: &'static str = "', ul.created_at) ORDER BY bucket ASC";

pub const SIGNUP_COLUMNS: &'static str = "', created_at)::text as bucket, COUNT(*)::bigint FROM ";

pub const SIGNUP_GROUP: &'static str =
    " WHERE created_at >= $1 AND created_at < $2 GROUP BY DATE_TRUNC('";

pub const SIGNUP_END: &'static str = "', created_at)";

/// The query for usage by unit of time.
pub fn usage_query(unit: &str) -> (r: String)
    ensures
        r@ == USAGE_SELECT@ + unit@ + USAGE_COLUMNS@ + unit@ + USAGE_ORDER@,
{
    let mut sql = USAGE_SELECT.to_owned();
    sql.append(unit);
    sql.append(USAGE_COLUMNS);
    sql.append(unit);
    sql.append(USAGE_ORDER);
    sql
}

/// The query for new users or organizations by unit of time.
pub fn signup_query(table: &str, unit: &str) -> (r: String)
    ensures
        r@ == USAGE_SELECT@ + unit@ + SIGNUP_COLUMNS@ + table@ + SIGNUP_GROUP@ + unit@
            + SIGNUP_END@,
{
    let mut sql = USAGE_SELECT.to_owned();
    sql.append(unit);
    sql.append(SIGNUP_COLUMNS);
    sql.append(table);
    sql.append(SIGNUP_GROUP);
    sql.append(unit);
    sql.append(SIGNUP_END);
    sql
}

/// What happened in one unit of time; costs are in billionths of a dollar.
#[derive(Debug, Clone, Copy, PartialEq, Eq, Structural)]
pub struct PointValues {
    pub requests: i64,
    pub tokens: i64,
    pub cost_nano: i64,
    pub verifiable_nano: i64,
    pub non_verifiable_nano: i64,
    pub active_organizations: i64,
    pub new_organizations: i64,
    pub new_users: i64,
}

/// Usage in one unit of time.
#[derive(Debug, Clone)]
pub struct UsageBucket {
    pub date: String,
    pub requests: i64,
    pub tokens: i64,
    pub cost_nano: i64,
    pub verifiable_nano: i64,
    pub non_verifiable_nano: i64,
    pub active_organizations: i64,
}

/// New users or organizations in one unit of time.
#[derive(Debug, Clone)]
pub struct SignupBucket {
    pub date: String,
    pub count: i64,
}

/// A unit of time in which nothing happened.
pub open spec fn no_values() -> PointValues {
    PointValues {
        requests: 0,
        tokens: 0,
        cost_nano: 0,
        verifiable_nano: 0,
        non_verifiable_nano: 0,
        active_organizations: 0,
        new_organizations: 0,
        new_users: 0,
    }
}

/// Usage alone.
pub open spec fn usage_values(bucket: UsageBucket) -> PointValues {
    PointValues {
        requests: bucket.requests,
        tokens: bucket.tokens,
        cost_nano: bucket.cost_nano,
        verifiable_nano: bucket.verifiable_nano,
        non_verifiable_nano: bucket.non_verifiable_nano,
        active_organizations: bucket.active_organizations,
        new_organizations: 0,
        new_users: 0,
    }
}

/// The last usage that rows report of a date.
pub open spec fn usage_on(rows: Seq<UsageBucket>, date: Seq<char>) -> PointValues
    decreases rows.len(),
{
    if rows.len() == 0 {
        no_values()
    } else if rows.last().date@ == date {
        usage_values(rows.last())
    } else {
        usage_on(rows.drop_last(), date)
    }
}

/// The last number that rows report of a date.
pub open spec fn signups_on(rows: Seq<SignupBucket>, date: Seq<char>) -> i64
    decreases rows.len(),
{
    if rows.len() == 0 {
        0
    } else if rows.last().date@ == date {
        rows.last().count
    } else {
        signups_on(rows.drop_last(), date)
    }
}

/// Whether usage of a date is reported.
pub open spec fn has_usage(rows: Seq<UsageBucket>, date: Seq<char>) -> bool {
    exists|i: int| 0 <= i < rows.len() && (#[trigger] rows[i]).date@ == date
}

/// Whether a number of a date is reported.
pub open spec fn has_signups(rows: Seq<SignupBucket>, date: Seq<char>) -> bool {
    exists|i: int| 0 <= i < rows.len() && (#[trigger] rows[i]).date@ == date
}

/// What is known of each date that anything is reported of.
pub open spec fn merged(
    usage: Seq<UsageBucket>,
    organizations: Seq<SignupBucket>,
    users: Seq<SignupBucket>,
) -> Map<Seq<char>, PointValues> {
    Map::new(
        |date: Seq<char>|
            has_usage(usage, date) || has_signups(organizations, date) || has_signups(users, date),
        |date: Seq<char>|
            PointValues {
                new_organizations: signups_on(organizations, date),
                new_users: signups_on(users, date),
                ..usage_on(usage, date)
            },
    )
}

proof fn lemma_add_usage(usage: Seq<UsageBucket>, row: UsageBucket)
    ensures
        merged(usage.push(row), seq![], seq![]) == merged(usage, seq![], seq![]).insert(
            row.date@,
            usage_values(row),
        ),
{
    let longer = usage.push(row);
    assert(longer.drop_last() =~= usage);
    assert forall|date: Seq<char>| has_usage(longer, date) <==> has_usage(usage, date) || date
        == row.date@ by {
        if has_usage(usage, date) {
            let i = choose|i: int| 0 <= i < usage.len() && (#[trigger] usage[i]).date@ == date;
            assert(longer[i].date@ == date);
        }
        if date == row.date@ {
            assert(longer[usage.len() as int].date@ == date);
        }
        if has_usage(longer, date) {
            let i = choose|i: int| 0 <= i < longer.len() && (#[trigger] longer[i]).date@ == date;
            if i < usage.len() {
                assert(usage[i].date@ == date);
            }
        }
    }
    assert(merged(longer, seq![], seq![]) =~= merged(usage, seq![], seq![]).insert(
        row.date@,
        usage_values(row),
    ));
}

proof fn lemma_more_signups(rows: Seq<SignupBucket>, row: SignupBucket)
    ensures
        forall|date: Seq<char>| #[trigger]
            has_signups(rows.push(row), date) <==> has_signups(rows, date) || date == row.date@,
        forall|date: Seq<char>| #[trigger]
            signups_on(rows.push(row), date) == (if date == row.date@ {
                row.count
            } else {
                signups_on(rows, date)
            }),
{
    let longer = rows.push(row);
    assert(longer.drop_last() =~= rows);
    assert forall|date: Seq<char>| #[trigger]
        has_signups(longer, date) <==> has_signups(rows, date) || date == row.date@ by {
        if has_signups(rows, date) {
            let i = choose|i: int| 0 <= i < rows.len() && (#[trigger] rows[i]).date@ == date;
            assert(longer[i].date@ == date);
        }
        if date == row.date@ {
            assert(longer[rows.len() as int].date@ == date);
        }
        if has_signups(longer, date) {
            let i = choose|i: int| 0 <= i < longer.len() && (#[trigger] longer[i]).date@ == date;
            if i < rows.len() {
                assert(rows[i].date@ == date);
            }
        }
    }
}

proof fn lemma_nothing_on(
    usage: Seq<UsageBucket>,
    organizations: Seq<SignupBucket>,
    users: Seq<SignupBucket>,
    date: Seq<char>,
)
    requires
        !merged(usage, organizations, users).contains_key(date),
    ensures
        usage_on(usage, date) == no_values(),
        signups_on(organizations, date) == 0,
        signups_on(users, date) == 0,
{
    assert(!has_usage(usage, date) && !has_signups(organizations, date) && !has_signups(
        users,
        date,
    ));
    lemma_no_usage(usage, date);
    lemma_no_signups(organizations, date);
    lemma_no_signups(users, date);
}

proof fn lemma_no_usage(rows: Seq<UsageBucket>, date: Seq<char>)
    requires
        !has_usage(rows, date),
    ensures
        usage_on(rows, date) == no_values(),
    decreases rows.len(),
{
    if rows.len() > 0 {
        assert(rows[rows.len() - 1].date@ != date);
        assert forall|i: int| 0 <= i < rows.drop_last().len() implies (
        #[trigger] rows.drop_last()[i]).date@ != date by {
            assert(rows[i].date@ != date);
        }
        lemma_no_usage(rows.drop_last(), date);
    }
}

proof fn lemma_no_signups(rows: Seq<SignupBucket>, date: Seq<char>)
    requires
        !has_signups(rows, date),
    ensures
        signups_on(rows, date) == 0,
    decreases rows.len(),
{
    if rows.len() > 0 {
        assert(rows[rows.len() - 1].date@ != date);
        assert forall|i: int| 0 <= i < rows.drop_last().len() implies (
        #[trigger] rows.drop_last()[i]).date@ != date by {
            assert(rows[i].date@ != date);
        }
        lemma_no_signups(rows.drop_last(), date);
    }
}

fn known_values(points: &TextMap<PointValues>, date: &str) -> (r: PointValues)
    requires
        points.well_formed(),
    ensures
        r == (if points@.contains_key(date@) {
            points@[date@]
        } else {
            no_values()
        }),
{
    match points.get(date) {
        Some(values) => *values,
        None => PointValues {
            requests: 0,
            tokens: 0,
            cost_nano: 0,
            verifiable_nano: 0,
            non_verifiable_nano: 0,
            active_organizations: 0,
            new_organizations: 0,
            new_users: 0,
        },
    }
}

/// Merges what is known of units of time: usage, new organizations and new
/// users. Each unit that anything is reported of comes once, in order.
pub fn get_platform_timeseries(
    usage: &Vec<UsageBucket>,
    organizations: &Vec<SignupBucket>,
    users: &Vec<SignupBucket>,
) -> (r: Vec<(String, PointValues)>)
    ensures
        crate::text_map::ascending(r@),
        crate::text_map::entries_map(r@) == merged(usage@, organizations@, users@),
{
    let mut points: TextMap<PointValues> = TextMap::new();
    let ghost none: Seq<SignupBucket> = seq![];
    let mut i: usize = 0;
    assert(usage@.take(0) =~= seq![]);
    assert(points@ =~= merged(usage@.take(0), none, none));
    while i < usage.len()
        invariant
            i <= usage@.len(),
            none == Seq::<SignupBucket>::empty(),
            points.well_formed(),
            points@ == merged(usage@.take(i as int), none, none),
        decreases usage.len() - i,
    {
        let bucket = &usage[i];
        proof {
            lemma_add_usage(usage@.take(i as int), *bucket);
            assert(usage@.take(i as int).push(*bucket) =~= usage@.take(i + 1));
        }
        points.insert(
            bucket.date.clone(),
            PointValues {
                requests: bucket.requests,
                tokens: bucket.tokens,
                cost_nano: bucket.cost_nano,
                verifiable_nano: bucket.verifiable_nano,
                non_verifiable_nano: bucket.non_verifiable_nano,
                active_organizations: bucket.active_organizations,
                new_organizations: 0,
                new_users: 0,
            },
        );
        i = i + 1;
    }
    assert(usage@.take(usage@.len() as int) =~= usage@);
    let mut j: usize = 0;
    assert(organizations@.take(0) =~= none);
    while j < organizations.len()
        invariant
            j <= organizations@.len(),
            none == Seq::<SignupBucket>::empty(),
            points.well_formed(),
            points@ == merged(usage@, organizations@.take(j as int), none),
        decreases organizations.len() - j,
    {
        let bucket = &organizations[j];
        let ghost rows = organizations@.take(j as int);
        let mut values: PointValues = known_values(&points, bucket.date.as_str());
        values.new_organizations = bucket.count;
        let ghost before = points@;
        points.insert(bucket.date.clone(), values);
        proof {
            lemma_more_signups(rows, *bucket);
            assert(rows.push(*bucket) =~= organizations@.take(j + 1));
            if !before.contains_key(bucket.date@) {
                lemma_nothing_on(usage@, rows, none, bucket.date@);
            }
            assert(points@ =~= merged(usage@, rows.push(*bucket), none));
        }
        j = j + 1;
    }
    assert(organizations@.take(organizations@.len() as int) =~= organizations@);
    let mut k: usize = 0;
    assert(users@.take(0) =~= none);
    while k < users.len()
        invariant
            k <= users@.len(),
            points.well_formed(),
            points@ == merged(usage@, organizations@, users@.take(k as int)),
        decreases users.len() - k,
    {
        let bucket = &users[k];
        let ghost rows = users@.take(k as int);
        let mut values: PointValues = known_values(&points, bucket.date.as_str());
        values.new_users = bucket.count;
        let ghost before = points@;
        points.insert(bucket.date.clone(), values);
        proof {
            lemma_more_signups(rows, *bucket);
            assert(rows.push(*bucket) =~= users@.take(k + 1));
            if !before.contains_key(bucket.date@) {
                lemma_nothing_on(usage@, organizations@, rows, bucket.date@);
            }
            assert(points@ =~= merged(usage@, organizations@, rows.push(*bucket)));
        }
        k = k + 1;
    }
    assert(users@.take(users@.len() as int) =~= users@);
    points.into_entries()
}

/// A unit of time is reported if and only if one of the sources reports it.
pub proof fn law_every_reported_date_is_kept(
    usage: Seq<UsageBucket>,
    organizations: Seq<SignupBucket>,
    users: Seq<SignupBucket>,
    points: Seq<(String, PointValues)>,
    date: Seq<char>,
)
    requires
        crate::text_map::ascending(points),
        crate::text_map::entries_map(points) == merged(usage, organizations, users),
    ensures
        (exists|i: int| 0 <= i < points.len() && (#[trigger] points[i]).0@ == date) <==> has_usage(
            usage,
            date,
        ) || has_signups(organizations, date) || has_signups(users, date),
{
    let map = crate::text_map::entries_map(points);
    if exists|i: int| 0 <= i < points.len() && (#[trigger] points[i]).0@ == date {
        let i = choose|i: int| 0 <= i < points.len() && (#[trigger] points[i]).0@ == date;
        crate::text_map::lemma_entry(points, i);
        assert(map.contains_key(date));
    }
    if map.contains_key(date) {
        let i = choose|i: int| crate::text_map::holds_at(points, date, i);
        assert(crate::text_map::holds_at(points, date, i));
        assert(points[i].0@ == date);
    }
}

/// A share is of all requests; without requests there is none.
pub proof fn law_shares_are_of_all_requests(part: i64, requests: i64)
    ensures
        requests > 0 ==> share_of(part, requests) == Some((Share { part, whole: requests })),
        requests <= 0 ==> share_of(part, requests) is None,
{
}

/// Hours, weeks and months are asked for by name; anything else means days.
pub proof fn law_units_are_read_by_name(granularity: Seq<char>)
    ensures
        bucket_unit("hour"@) == "hour"@,
        bucket_unit("week"@) == "week"@,
        bucket_unit("month"@) == "month"@,
        granularity != "hour"@ && granularity != "week"@ && granularity != "month"@ ==> bucket_unit(
            granularity,
        ) == "day"@,
{
    reveal_strlit("hour");
    reveal_strlit("week");
    reveal_strlit("month");
    assert("hour"@[0] == 'h' && "week"@[0] == 'w' && "month"@[0] == 'm');
}

/// Of a date, the last row that reports usage counts, value for value, and the
/// last that reports new organizations or users; what nothing reports is zero.
pub proof fn law_the_last_report_of_a_date_counts(
    usage: Seq<UsageBucket>,
    row: UsageBucket,
    signups: Seq<SignupBucket>,
    signup: SignupBucket,
    date: Seq<char>,
)
    ensures
        ({
            let values = usage_on(usage.push(row), date);
            row.date@ == date ==> values.requests == row.requests && values.tokens == row.tokens
                && values.cost_nano == row.cost_nano && values.verifiable_nano
                == row.verifiable_nano && values.non_verifiable_nano == row.non_verifiable_nano
                && values.active_organizations == row.active_organizations
        }),
        row.date@ != date ==> usage_on(usage.push(row), date) == usage_on(usage, date),
        ({
            let values = usage_on(seq![], date);
            values.requests == 0 && values.tokens == 0 && values.cost_nano == 0
                && values.verifiable_nano == 0 && values.non_verifiable_nano == 0
                && values.active_organizations == 0
        }),
        signups_on(seq![], date) == 0,
        signup.date@ == date ==> signups_on(signups.push(signup), date) == signup.count,
        signup.date@ != date ==> signups_on(signups.push(signup), date) == signups_on(
            signups,
            date,
        ),
{
    assert(usage.push(row).drop_last() =~= usage);
    assert(signups.push(signup).drop_last() =~= signups);
}

/// Each date that any source reports has its usage, its new organizations and its
/// new users, each in its own place; no other date is there.
pub proof fn law_dates_gather_all_sources(
    usage: Seq<UsageBucket>,
    organizations: Seq<SignupBucket>,
    users: Seq<SignupBucket>,
    date: Seq<char>,
)
    ensures
        merged(usage, organizations, users).contains_key(date) <==> (exists|i: int|
            0 <= i < usage.len() && (#[trigger] usage[i]).date@ == date) || (exists|i: int|
            0 <= i < organizations.len() && (#[trigger] organizations[i]).date@ == date) || (exists|
            i: int,
        |
            0 <= i < users.len() && (#[trigger] users[i]).date@ == date),
        merged(usage, organizations, users).contains_key(date) ==> {
            let point = merged(usage, organizations, users)[date];
            &&& point.requests == usage_on(usage, date).requests
            &&& point.tokens == usage_on(usage, date).tokens
            &&& point.cost_nano == usage_on(usage, date).cost_nano
            &&& point.verifiable_nano == usage_on(usage, date).verifiable_nano
            &&& point.non_verifiable_nano == usage_on(usage, date).non_verifiable_nano
            &&& point.active_organizations == usage_on(usage, date).active_organizations
            &&& point.new_organizations == signups_on(organizations, date)
            &&& point.new_users == signups_on(users, date)
        },
{
}

} // verus!

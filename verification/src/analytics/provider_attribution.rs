//! Which providers served how much.
use crate::error::RepositoryError;
use crate::text::{copy_optional, same_text, signed_decimal_text};
use vstd::prelude::*;
use vstd::string::StringExecFns;

verus! {

/// Rows that are grouped by whether a fallback served.
pub const BY_FALLBACK: i32 = 3;

/// Rows that are grouped by the type of the provider.
pub const BY_PROVIDER_TYPE: i32 = 5;

/// Rows that are grouped by the tier of the provider.
pub const BY_PROVIDER_TIER: i32 = 6;

/// What was served, and what it cost in billionths of a dollar.
#[derive(Debug, Clone, Copy, PartialEq, Eq, Structural)]
pub struct ProviderUsageTotals {
    pub requests: i64,
    pub input_tokens: i64,
    pub output_tokens: i64,
    pub total_tokens: i64,
    pub cache_read_tokens: i64,
    pub cost_nano: i64,
}

impl ProviderUsageTotals {
    /// Nothing.
    pub open spec fn zero() -> ProviderUsageTotals {
        ProviderUsageTotals {
            requests: 0,
            input_tokens: 0,
            output_tokens: 0,
            total_tokens: 0,
            cache_read_tokens: 0,
            cost_nano: 0,
        }
    }
}

/// One row of the grouped usage.
#[derive(Debug, Clone)]
pub struct ProviderUsageRow {
    pub grouping_set: i32,
    pub served_via_fallback: Option<bool>,
    pub served_provider_type: Option<String>,
    pub served_provider_tier: Option<String>,
    pub totals: ProviderUsageTotals,
}

/// What one type of provider served.
#[derive(Debug, Clone)]
pub struct ProviderTypeUsage {
    pub provider_type: Option<String>,
    pub totals: ProviderUsageTotals,
}

/// What one tier of providers served.
#[derive(Debug, Clone)]
pub struct ProviderTierUsage {
    pub provider_tier: Option<String>,
    pub totals: ProviderUsageTotals,
}

/// What providers served, by each of the groupings.
#[derive(Debug, Clone)]
pub struct PlatformProviderUsage {
    pub fallback: ProviderUsageTotals,
    pub non_fallback: ProviderUsageTotals,
    pub by_provider_type: Vec<ProviderTypeUsage>,
    pub by_provider_tier: Vec<ProviderTierUsage>,
}

/// Whether a row is grouped in a known way.
pub open spec fn known_grouping(row: ProviderUsageRow) -> bool {
    row.grouping_set == BY_FALLBACK || row.grouping_set == BY_PROVIDER_TYPE || row.grouping_set
        == BY_PROVIDER_TIER
}

/// Whether every row before a position is grouped in a known way.
pub open spec fn known_before(rows: Seq<ProviderUsageRow>, end: int) -> bool {
    forall|k: int| 0 <= k < end ==> known_grouping(#[trigger] rows[k])
}

/// The totals of the last row that says whether a fallback served.
pub open spec fn fallback_totals(rows: Seq<ProviderUsageRow>, fallback: bool) -> ProviderUsageTotals
    decreases rows.len(),
{
    if rows.len() == 0 {
        ProviderUsageTotals::zero()
    } else if rows.last().grouping_set == BY_FALLBACK && rows.last().served_via_fallback == Some(
        fallback,
    ) {
        rows.last().totals
    } else {
        fallback_totals(rows.drop_last(), fallback)
    }
}

/// What each type of provider served, in the order of the rows.
pub open spec fn type_usage(rows: Seq<ProviderUsageRow>) -> Seq<ProviderTypeUsage> {
    rows.filter(|row: ProviderUsageRow| row.grouping_set == BY_PROVIDER_TYPE).map_values(
        |row: ProviderUsageRow|
            ProviderTypeUsage { provider_type: row.served_provider_type, totals: row.totals },
    )
}

/// What each tier of providers served, in the order of the rows.
pub open spec fn tier_usage(rows: Seq<ProviderUsageRow>) -> Seq<ProviderTierUsage> {
    rows.filter(|row: ProviderUsageRow| row.grouping_set == BY_PROVIDER_TIER).map_values(
        |row: ProviderUsageRow|
            ProviderTierUsage { provider_tier: row.served_provider_tier, totals: row.totals },
    )
}

/// Whether usage is that of rows.
pub open spec fn usage_of(rows: Seq<ProviderUsageRow>, usage: PlatformProviderUsage) -> bool {
    &&& usage.fallback == fallback_totals(rows, true)
    &&& usage.non_fallback == fallback_totals(rows, false)
    &&& usage.by_provider_type@ == type_usage(rows)
    &&& usage.by_provider_tier@ == tier_usage(rows)
}

proof fn lemma_push(rows: Seq<ProviderUsageRow>, row: ProviderUsageRow)
    ensures
        fallback_totals(rows.push(row), true) == (if row.grouping_set == BY_FALLBACK
            && row.served_via_fallback == Some(true) {
            row.totals
        } else {
            fallback_totals(rows, true)
        }),
        fallback_totals(rows.push(row), false) == (if row.grouping_set == BY_FALLBACK
            && row.served_via_fallback == Some(false) {
            row.totals
        } else {
            fallback_totals(rows, false)
        }),
        type_usage(rows.push(row)) == (if row.grouping_set == BY_PROVIDER_TYPE {
            type_usage(rows).push(
                ProviderTypeUsage { provider_type: row.served_provider_type, totals: row.totals },
            )
        } else {
            type_usage(rows)
        }),
        tier_usage(rows.push(row)) == (if row.grouping_set == BY_PROVIDER_TIER {
            tier_usage(rows).push(
                ProviderTierUsage { provider_tier: row.served_provider_tier, totals: row.totals },
            )
        } else {
            tier_usage(rows)
        }),
{
    reveal(Seq::filter);
    assert(rows.push(row).drop_last() =~= rows);
    assert(type_usage(rows.push(row)) =~= if row.grouping_set == BY_PROVIDER_TYPE {
        type_usage(rows).push(
            ProviderTypeUsage { provider_type: row.served_provider_type, totals: row.totals },
        )
    } else {
        type_usage(rows)
    });
    assert(tier_usage(rows.push(row)) =~= if row.grouping_set == BY_PROVIDER_TIER {
        tier_usage(rows).push(
            ProviderTierUsage { provider_tier: row.served_provider_tier, totals: row.totals },
        )
    } else {
        tier_usage(rows)
    });
}

/// Sorts grouped usage into what each grouping says. A row that is grouped by
/// whether a fallback served says so, at least before the first row that is
/// grouped in an unknown way.
pub fn get_platform_provider_usage(rows: &Vec<ProviderUsageRow>) -> (r: Result<
    PlatformProviderUsage,
    RepositoryError,
>)
    requires
        forall|i: int|
            0 <= i < rows@.len() && (#[trigger] rows@[i]).grouping_set == BY_FALLBACK
                && known_before(rows@, i) ==> rows@[i].served_via_fallback is Some,
    ensures
        match r {
            Ok(usage) => {
                &&& forall|i: int| 0 <= i < rows@.len() ==> known_grouping(#[trigger] rows@[i])
                &&& usage_of(rows@, usage)
            },
            Err(e) => exists|i: int|
                {
                    &&& 0 <= i < rows@.len()
                    &&& !known_grouping(#[trigger] rows@[i])
                    &&& forall|k: int| 0 <= k < i ==> known_grouping(#[trigger] rows@[k])
                    &&& e@ == crate::error::RepositoryErrorView::DatabaseError(
                        "unexpected provider usage grouping set "@ + crate::text::decimal_int(
                            rows@[i].grouping_set as int,
                        ),
                    )
                },
        },
{
    let zero = ProviderUsageTotals {
        requests: 0,
        input_tokens: 0,
        output_tokens: 0,
        total_tokens: 0,
        cache_read_tokens: 0,
        cost_nano: 0,
    };
    let mut usage = PlatformProviderUsage {
        fallback: zero,
        non_fallback: zero,
        by_provider_type: Vec::new(),
        by_provider_tier: Vec::new(),
    };
    proof {
        reveal(Seq::filter);
        assert(rows@.take(0) =~= seq![]);
        assert(type_usage(seq![]) =~= seq![]);
        assert(tier_usage(seq![]) =~= seq![]);
    }
    let mut i: usize = 0;
    while i < rows.len()
        invariant
            i <= rows@.len(),
            usage_of(rows@.take(i as int), usage),
            forall|k: int| 0 <= k < i ==> known_grouping(#[trigger] rows@[k]),
            forall|k: int|
                0 <= k < rows@.len() && (#[trigger] rows@[k]).grouping_set == BY_FALLBACK
                    && known_before(rows@, k) ==> rows@[k].served_via_fallback is Some,
        decreases rows.len() - i,
    {
        let row = &rows[i];
        proof {
            lemma_push(rows@.take(i as int), *row);
            assert(rows@.take(i as int).push(*row) =~= rows@.take(i + 1));
        }
        if row.grouping_set == BY_FALLBACK {
            match row.served_via_fallback {
                Some(true) => {
                    usage.fallback = row.totals;
                },
                _ => {
                    usage.non_fallback = row.totals;
                },
            }
        } else if row.grouping_set == BY_PROVIDER_TYPE {
            usage.by_provider_type.push(
                ProviderTypeUsage {
                    provider_type: copy_optional(&row.served_provider_type),
                    totals: row.totals,
                },
            );
        } else if row.grouping_set == BY_PROVIDER_TIER {
            usage.by_provider_tier.push(
                ProviderTierUsage {
                    provider_tier: copy_optional(&row.served_provider_tier),
                    totals: row.totals,
                },
            );
        } else {
            let mut message = "unexpected provider usage grouping set ".to_owned();
            message.append(signed_decimal_text(row.grouping_set as i64).as_str());
            return Err(RepositoryError::DatabaseError(message));
        }
        i = i + 1;
    }
    assert(rows@.take(rows@.len() as int) =~= rows@);
    Ok(usage)
}

/// What one provider earned with a model, in billionths of a dollar.
#[derive(Debug, Clone)]
pub struct ModelProviderRevenueBreakdown {
    pub provider_type: Option<String>,
    pub provider_tier: Option<String>,
    pub served_via_fallback: bool,
    pub requests: i64,
    pub tokens: i64,
    pub cost_nano: i64,
}

/// What one provider earned, with the model.
#[derive(Debug, Clone)]
pub struct BreakdownRow {
    pub model_name: String,
    pub breakdown: ModelProviderRevenueBreakdown,
}

/// What providers earned with a model, in the order of the rows.
pub open spec fn breakdowns_of(rows: Seq<BreakdownRow>, model_name: Seq<char>) -> Seq<
    ModelProviderRevenueBreakdown,
> {
    rows.filter(|row: BreakdownRow| row.model_name@ == model_name).map_values(
        |row: BreakdownRow| row.breakdown,
    )
}

/// Whether a model comes earlier in a list.
pub open spec fn named_before(names: Seq<Seq<char>>, at: int) -> bool {
    names.take(at).contains(names[at])
}

fn copy_breakdown(breakdown: &ModelProviderRevenueBreakdown) -> (r: ModelProviderRevenueBreakdown)
    ensures
        r == *breakdown,
{
    ModelProviderRevenueBreakdown {
        provider_type: copy_optional(&breakdown.provider_type),
        provider_tier: copy_optional(&breakdown.provider_tier),
        served_via_fallback: breakdown.served_via_fallback,
        requests: breakdown.requests,
        tokens: breakdown.tokens,
        cost_nano: breakdown.cost_nano,
    }
}

fn collect_breakdowns(rows: &Vec<BreakdownRow>, model_name: &str) -> (r: Vec<
    ModelProviderRevenueBreakdown,
>)
    ensures
        r@ == breakdowns_of(rows@, model_name@),
{
    let mut found: Vec<ModelProviderRevenueBreakdown> = Vec::new();
    let mut i: usize = 0;
    proof {
        reveal(Seq::filter);
        assert(rows@.take(0) =~= seq![]);
        assert(found@ =~= breakdowns_of(rows@.take(0), model_name@));
    }
    while i < rows.len()
        invariant
            i <= rows@.len(),
            found@ == breakdowns_of(rows@.take(i as int), model_name@),
        decreases rows.len() - i,
    {
        proof {
            reveal(Seq::filter);
            assert(rows@.take(i + 1).drop_last() =~= rows@.take(i as int));
            assert(rows@.take(i + 1).last() == rows@[i as int]);
        }
        if same_text(rows[i].model_name.as_str(), model_name) {
            found.push(copy_breakdown(&rows[i].breakdown));
            assert(found@ =~= breakdowns_of(rows@.take(i + 1), model_name@));
        }
        i = i + 1;
    }
    assert(rows@.take(rows@.len() as int) =~= rows@);
    found
}

/// What providers earned with each of a list of models. Where a model is listed
/// twice its providers come with the first.
pub fn load_model_provider_breakdowns(names: &Vec<String>, rows: &Vec<BreakdownRow>) -> (r: Vec<
    Vec<ModelProviderRevenueBreakdown>,
>)
    ensures
        r@.len() == names@.len(),
        forall|i: int|
            0 <= i < r@.len() ==> (#[trigger] r@[i])@ == (if named_before(
                crate::text::list_view(names@),
                i,
            ) {
                seq![]
            } else {
                breakdowns_of(rows@, names@[i]@)
            }),
{
    let ghost views = crate::text::list_view(names@);
    let mut result: Vec<Vec<ModelProviderRevenueBreakdown>> = Vec::new();
    let mut i: usize = 0;
    while i < names.len()
        invariant
            i <= names@.len(),
            views == crate::text::list_view(names@),
            result@.len() == i,
            forall|k: int|
                0 <= k < i ==> (#[trigger] result@[k])@ == (if named_before(views, k) {
                    seq![]
                } else {
                    breakdowns_of(rows@, names@[k]@)
                }),
        decreases names.len() - i,
    {
        let mut repeated: bool = false;
        let mut k: usize = 0;
        while k < i
            invariant
                k <= i < names@.len(),
                views == crate::text::list_view(names@),
                repeated == views.take(k as int).contains(views[i as int]),
            decreases i - k,
        {
            let same: bool = same_text(names[k].as_str(), names[i].as_str());
            proof {
                let shorter = views.take(k as int);
                let longer = views.take(k + 1);
                assert(longer =~= shorter.push(views[k as int]));
                if same {
                    assert(longer[k as int] == views[i as int]);
                } else if longer.contains(views[i as int]) {
                    let j = choose|j: int| 0 <= j < longer.len() && longer[j] == views[i as int];
                    assert(shorter[j] == views[i as int]);
                }
                if repeated {
                    let j = choose|j: int| 0 <= j < shorter.len() && shorter[j] == views[i as int];
                    assert(longer[j] == views[i as int]);
                }
            }
            if same {
                repeated = true;
            }
            k = k + 1;
        }
        let breakdowns = if repeated {
            Vec::new()
        } else {
            collect_breakdowns(rows, names[i].as_str())
        };
        assert(breakdowns@ =~= if named_before(views, i as int) {
            seq![]
        } else {
            breakdowns_of(rows@, names@[i as int]@)
        });
        result.push(breakdowns);
        i = i + 1;
    }
    result
}

/// One row more counts for its grouping and for no other: by whether a fallback
/// served it replaces what was there, by type or tier of provider it is added.
pub proof fn law_each_row_counts_for_its_grouping(
    rows: Seq<ProviderUsageRow>,
    row: ProviderUsageRow,
    fallback: bool,
)
    ensures
        known_grouping(row) <==> row.grouping_set == 3 || row.grouping_set == 5
            || row.grouping_set == 6,
        row.grouping_set == 3 && row.served_via_fallback == Some(fallback) ==> fallback_totals(
            rows.push(row),
            fallback,
        ) == row.totals,
        !(row.grouping_set == 3 && row.served_via_fallback == Some(fallback)) ==> fallback_totals(
            rows.push(row),
            fallback,
        ) == fallback_totals(rows, fallback),
        row.grouping_set == 5 ==> type_usage(rows.push(row)) == type_usage(rows).push(
            (ProviderTypeUsage { provider_type: row.served_provider_type, totals: row.totals }),
        ),
        row.grouping_set != 5 ==> type_usage(rows.push(row)) == type_usage(rows),
        row.grouping_set == 6 ==> tier_usage(rows.push(row)) == tier_usage(rows).push(
            (ProviderTierUsage { provider_tier: row.served_provider_tier, totals: row.totals }),
        ),
        row.grouping_set != 6 ==> tier_usage(rows.push(row)) == tier_usage(rows),
{
    lemma_push(rows, row);
}

/// Without rows nothing was served, by any grouping.
pub proof fn law_without_rows_nothing_was_served(fallback: bool)
    ensures
        fallback_totals(seq![], fallback).requests == 0,
        fallback_totals(seq![], fallback).input_tokens == 0,
        fallback_totals(seq![], fallback).output_tokens == 0,
        fallback_totals(seq![], fallback).total_tokens == 0,
        fallback_totals(seq![], fallback).cache_read_tokens == 0,
        fallback_totals(seq![], fallback).cost_nano == 0,
        type_usage(seq![]).len() == 0,
        tier_usage(seq![]).len() == 0,
{
    reveal(Seq::filter);
}

/// A report on providers tells fallbacks from the rest, and types from tiers.
pub proof fn law_groupings_are_reported_apart(
    rows: Seq<ProviderUsageRow>,
    usage: PlatformProviderUsage,
)
    requires
        usage_of(rows, usage),
    ensures
        usage.fallback == fallback_totals(rows, true),
        usage.non_fallback == fallback_totals(rows, false),
        usage.by_provider_type@ == type_usage(rows),
        usage.by_provider_tier@ == tier_usage(rows),
{
}

/// One row more adds its breakdown to its own model and to no other.
pub proof fn law_each_breakdown_belongs_to_its_model(
    rows: Seq<BreakdownRow>,
    row: BreakdownRow,
    model_name: Seq<char>,
    names: Seq<Seq<char>>,
    at: int,
)
    ensures
        breakdowns_of(seq![], model_name).len() == 0,
        row.model_name@ == model_name ==> breakdowns_of(rows.push(row), model_name)
            == breakdowns_of(rows, model_name).push(row.breakdown),
        row.model_name@ != model_name ==> breakdowns_of(rows.push(row), model_name)
            == breakdowns_of(rows, model_name),
        0 <= at < names.len() ==> (named_before(names, at) <==> exists|k: int|
            0 <= k < at && #[trigger] names[k] == names[at]),
{
    reveal(Seq::filter);
    assert(rows.push(row).drop_last() =~= rows);
    assert(breakdowns_of(rows.push(row), model_name) =~= if row.model_name@ == model_name {
        breakdowns_of(rows, model_name).push(row.breakdown)
    } else {
        breakdowns_of(rows, model_name)
    });
    if 0 <= at < names.len() {
        let before = names.take(at);
        if exists|k: int| 0 <= k < at && #[trigger] names[k] == names[at] {
            let k = choose|k: int| 0 <= k < at && #[trigger] names[k] == names[at];
            assert(before[k] == names[at]);
        }
        if before.contains(names[at]) {
            let k = choose|k: int| 0 <= k < before.len() && before[k] == names[at];
            assert(names[k] == names[at]);
        }
    }
}

} // verus!

//! Consumption and performance of models over time.
use crate::sort::{
    is_text_at_most, lemma_text_order_total, lemma_text_order_transitive, stable_order,
    text_at_most, SortKey,
};
use crate::text::same_text;
use crate::text_map::TextMap;
use vstd::prelude::*;
use vstd::string::StringExecFns;

verus! {

/// The label of all models that are not shown on their own.
pub const OTHER: &'static str = "Other";

/// What was consumed of a model in one unit of time; the cost is in billionths
/// of a dollar.
#[derive(Debug, Clone)]
pub struct ConsumptionRow {
    pub bucket: String,
    pub model_label: String,
    pub cost_nano: i64,
    pub requests: i64,
    pub tokens: i64,
}

pub const BUCKET_SELECT: &'static str = "SELECT DATE_TRUNC('";

pub const BUCKET_COLUMNS: &'static str =
    "', ul.created_at)::text AS bucket, CASE WHEN ul.model_id = ANY($3) THEN COALESCE(m.model_name, ul.model_name) ELSE 'Other' END AS model_label, COALESCE(SUM(ul.total_cost), 0)::bigint AS cost_nano, COUNT(*)::bigint AS requests, COALESCE(SUM(ul.total_tokens), 0)::bigint AS tokens FROM organization_usage_log ul LEFT JOIN models m ON m.id = ul.model_id WHERE ul.created_at >= $1 AND ul.created_at < $2 GROUP BY 1, 2 ORDER BY 1 ASC, cost_nano DESC";

pub const PERFORMANCE_COLUMNS: &'static str =
    "', ul.created_at)::text AS bucket, COUNT(*)::bigint AS requests, COALESCE(SUM(ul.total_tokens), 0)::bigint AS total_tokens, COALESCE(SUM(ul.output_tokens), 0)::bigint AS output_tokens, COUNT(*) FILTER (WHERE ul.ttft_ms IS NOT NULL)::bigint AS ttft_sample_count, PERCENTILE_CONT(0.50) WITHIN GROUP (ORDER BY ul.ttft_ms)::double precision AS p50_ttft_ms, PERCENTILE_CONT(0.95) WITHIN GROUP (ORDER BY ul.ttft_ms)::double precision AS p95_ttft_ms, PERCENTILE_CONT(0.99) WITHIN GROUP (ORDER BY ul.ttft_ms)::double precision AS p99_ttft_ms, CASE WHEN COUNT(*) FILTER (WHERE ul.stop_reason IS NOT NULL) = 0 THEN NULL ELSE COUNT(*) FILTER (WHERE ul.stop_reason IN ('provider_error', 'timeout', 'incomplete'))::float8 / COUNT(*) FILTER (WHERE ul.stop_reason IS NOT NULL)::float8 END AS error_rate FROM organization_usage_log ul WHERE ul.created_at >= $1 AND ul.created_at < $2 AND ($3::text IS NULL OR ul.model_name = $3) GROUP BY 1 ORDER BY 1 ASC";

/// The query for consumption by unit of time.
pub fn bucket_query(unit: &str) -> (r: String)
    ensures
        r@ == BUCKET_SELECT@ + unit@ + BUCKET_COLUMNS@,
{
    let mut sql = BUCKET_SELECT.to_owned();
    sql.append(unit);
    sql.append(BUCKET_COLUMNS);
    sql
}

/// The query for performance by unit of time.
pub fn performance_query(unit: &str) -> (r: String)
    ensures
        r@ == BUCKET_SELECT@ + unit@ + PERFORMANCE_COLUMNS@,
{
    let mut sql = BUCKET_SELECT.to_owned();
    sql.append(unit);
    sql.append(PERFORMANCE_COLUMNS);
    sql
}

/// What a label cost over all units of time.
pub open spec fn label_total(rows: Seq<ConsumptionRow>, label: Seq<char>) -> int
    decreases rows.len(),
{
    if rows.len() == 0 {
        0
    } else {
        label_total(rows.drop_last(), label) + (if rows.last().model_label@ == label {
            rows.last().cost_nano as int
        } else {
            0
        })
    }
}

/// Whether a label occurs.
pub open spec fn has_label(rows: Seq<ConsumptionRow>, label: Seq<char>) -> bool {
    exists|i: int| 0 <= i < rows.len() && (#[trigger] rows[i]).model_label@ == label
}

/// Whether a label is listed before another: what is not shown on its own comes
/// last, the dearest comes first, and labels of the same cost come by name.
pub open spec fn ranks_before(
    a: Seq<char>,
    a_total: int,
    b: Seq<char>,
    b_total: int,
) -> bool {
    if a == OTHER@ {
        false
    } else if b == OTHER@ {
        true
    } else {
        a_total > b_total || (a_total == b_total && crate::text_map::text_before(a, b))
    }
}

/// Whether the sums of the costs of each label stay in the range.
pub open spec fn totals_fit(rows: Seq<ConsumptionRow>) -> bool {
    forall|i: int, label: Seq<char>|
        0 <= i <= rows.len() ==> i64::MIN <= #[trigger] label_total(rows.take(i), label)
            <= i64::MAX
}

/// A label and what it cost, as a key.
pub struct LabelKey {
    pub other: bool,
    pub total: i64,
    pub name: String,
}

impl SortKey for LabelKey {
    open spec fn at_most(self, other: Self) -> bool {
        if self.other != other.other {
            other.other
        } else {
            self.total > other.total || (self.total == other.total && text_at_most(
                self.name@,
                other.name@,
            ))
        }
    }

    proof fn total(a: Self, b: Self) {
        lemma_text_order_total(a.name@, b.name@);
    }

    proof fn transitive(a: Self, b: Self, c: Self) {
        if a.other == b.other && b.other == c.other && a.total == b.total && b.total == c.total {
            lemma_text_order_transitive(a.name@, b.name@, c.name@);
        }
    }

    fn is_at_most(&self, other: &Self) -> (r: bool) {
        if self.other != other.other {
            other.other
        } else {
            self.total > other.total || (self.total == other.total && is_text_at_most(
                self.name.as_str(),
                other.name.as_str(),
            ))
        }
    }
}

/// What each label cost.
spec fn totals_map(rows: Seq<ConsumptionRow>) -> Map<Seq<char>, i64> {
    Map::new(
        |label: Seq<char>| has_label(rows, label),
        |label: Seq<char>| label_total(rows, label) as i64,
    )
}

proof fn lemma_no_label(rows: Seq<ConsumptionRow>, label: Seq<char>)
    requires
        !has_label(rows, label),
    ensures
        label_total(rows, label) == 0,
    decreases rows.len(),
{
    if rows.len() > 0 {
        assert(rows[rows.len() - 1].model_label@ != label);
        assert forall|i: int| 0 <= i < rows.drop_last().len() implies (
        #[trigger] rows.drop_last()[i]).model_label@ != label by {
            assert(rows[i].model_label@ != label);
        }
        lemma_no_label(rows.drop_last(), label);
    }
}

proof fn lemma_add_row(rows: Seq<ConsumptionRow>, row: ConsumptionRow, sum: i64)
    requires
        sum == label_total(rows, row.model_label@) + row.cost_nano,
    ensures
        totals_map(rows.push(row)) == totals_map(rows).insert(row.model_label@, sum),
{
    let longer = rows.push(row);
    assert(longer.drop_last() =~= rows);
    assert forall|label: Seq<char>| has_label(longer, label) <==> has_label(rows, label) || label
        == row.model_label@ by {
        if has_label(rows, label) {
            let i = choose|i: int| 0 <= i < rows.len() && (#[trigger] rows[i]).model_label@
                == label;
            assert(longer[i].model_label@ == label);
        }
        if label == row.model_label@ {
            assert(longer[rows.len() as int].model_label@ == label);
        }
        if has_label(longer, label) {
            let i = choose|i: int| 0 <= i < longer.len() && (#[trigger] longer[i]).model_label@
                == label;
            if i < rows.len() {
                assert(rows[i].model_label@ == label);
            }
        }
    }
    assert(totals_map(longer) =~= totals_map(rows).insert(row.model_label@, sum));
}

fn sum_labels(rows: &Vec<ConsumptionRow>) -> (r: TextMap<i64>)
    requires
        totals_fit(rows@),
    ensures
        r.well_formed(),
        r@ == totals_map(rows@),
{
    let mut totals: TextMap<i64> = TextMap::new();
    let mut i: usize = 0;
    assert(rows@.take(0) =~= seq![]);
    assert(totals@ =~= totals_map(rows@.take(0)));
    while i < rows.len()
        invariant
            i <= rows@.len(),
            totals_fit(rows@),
            totals.well_formed(),
            totals@ == totals_map(rows@.take(i as int)),
        decreases rows.len() - i,
    {
        let row = &rows[i];
        let ghost label = row.model_label@;
        let ghost before = rows@.take(i as int);
        let known: i64 = match totals.get(row.model_label.as_str()) {
            Some(total) => *total,
            None => 0,
        };
        proof {
            if !has_label(before, label) {
                lemma_no_label(before, label);
            }
            assert(i64::MIN <= label_total(rows@.take(i as int), label) <= i64::MAX);
            assert(known == label_total(before, label));
            assert(rows@.take(i + 1).drop_last() =~= before);
            assert(rows@.take(i + 1).last() == *row);
            assert(i64::MIN <= label_total(rows@.take(i + 1), label) <= i64::MAX);
            assert(label_total(rows@.take(i + 1), label) == known + row.cost_nano);
        }
        let sum: i64 = known + row.cost_nano;
        totals.insert(row.model_label.clone(), sum);
        proof {
            lemma_add_row(before, *row, sum);
            assert(before.push(*row) =~= rows@.take(i + 1));
        }
        i = i + 1;
    }
    assert(rows@.take(rows@.len() as int) =~= rows@);
    totals
}

/// The labels of a chart of consumption: each once, the dearest first, those of
/// the same cost by name, and what is not shown on its own last.
pub fn get_model_consumption_timeseries(rows: &Vec<ConsumptionRow>) -> (r: Vec<String>)
    requires
        totals_fit(rows@),
    ensures
        forall|i: int| 0 <= i < r@.len() ==> has_label(rows@, (#[trigger] r@[i])@),
        forall|label: Seq<char>| #[trigger]
            has_label(rows@, label) ==> crate::text::list_view(r@).contains(label),
        forall|i: int, j: int|
            0 <= i < j < r@.len() ==> ranks_before(
                (#[trigger] r@[i])@,
                label_total(rows@, r@[i]@),
                (#[trigger] r@[j])@,
                label_total(rows@, r@[j]@),
            ),
{
    let entries = sum_labels(rows).into_entries();
    let mut keys: Vec<LabelKey> = Vec::new();
    let mut i: usize = 0;
    while i < entries.len()
        invariant
            i <= entries@.len(),
            keys@.len() == i,
            forall|k: int|
                0 <= k < i ==> (#[trigger] keys@[k]).total == entries@[k].1 && keys@[k].name
                    == entries@[k].0 && keys@[k].other == (entries@[k].0@ == OTHER@),
        decreases entries.len() - i,
    {
        let name = entries[i].0.clone();
        keys.push(
            LabelKey { other: same_text(name.as_str(), OTHER), total: entries[i].1, name },
        );
        i = i + 1;
    }
    let order = stable_order(&keys);
    let mut labels: Vec<String> = Vec::new();
    let mut at: usize = 0;
    while at < order.len()
        invariant
            at <= order@.len(),
            labels@.len() == at,
            keys@.len() == entries@.len(),
            forall|k: int| 0 <= k < order@.len() ==> (#[trigger] order@[k]) < keys@.len(),
            forall|k: int|
                0 <= k < at ==> #[trigger] labels@[k] == entries@[order@[k] as int].0,
        decreases order.len() - at,
    {
        assert(order@[at as int] < keys@.len());
        labels.push(entries[order[at]].0.clone());
        at = at + 1;
    }
    proof {
        lemma_labels(rows@, entries@, keys@, order@, labels@);
    }
    labels
}

proof fn lemma_labels(
    rows: Seq<ConsumptionRow>,
    entries: Seq<(String, i64)>,
    keys: Seq<LabelKey>,
    order: Seq<usize>,
    labels: Seq<String>,
)
    requires
        totals_fit(rows),
        crate::text_map::ascending(entries),
        crate::text_map::entries_map(entries) == totals_map(rows),
        keys.len() == entries.len(),
        forall|k: int|
            0 <= k < keys.len() ==> (#[trigger] keys[k]).total == entries[k].1 && keys[k].name
                == entries[k].0 && keys[k].other == (entries[k].0@ == OTHER@),
        crate::sort::is_stable_order(keys, order),
        labels.len() == order.len(),
        forall|k: int| 0 <= k < labels.len() ==> #[trigger] labels[k] == entries[order[k] as int].0,
    ensures
        forall|i: int| 0 <= i < labels.len() ==> has_label(rows, (#[trigger] labels[i])@),
        forall|label: Seq<char>| #[trigger]
            has_label(rows, label) ==> crate::text::list_view(labels).contains(label),
        forall|i: int, j: int|
            0 <= i < j < labels.len() ==> ranks_before(
                (#[trigger] labels[i])@,
                label_total(rows, labels[i]@),
                (#[trigger] labels[j])@,
                label_total(rows, labels[j]@),
            ),
{
    let totals = totals_map(rows);
    assert(rows.take(rows.len() as int) =~= rows);
    assert forall|k: int| 0 <= k < entries.len() implies has_label(
        rows,
        (#[trigger] entries[k]).0@,
    ) && entries[k].1 == label_total(rows, entries[k].0@) by {
        crate::text_map::lemma_entry(entries, k);
        assert(totals.contains_key(entries[k].0@));
        assert(i64::MIN <= label_total(rows.take(rows.len() as int), entries[k].0@) <= i64::MAX);
    }
    assert forall|i: int| 0 <= i < labels.len() implies has_label(
        rows,
        (#[trigger] labels[i])@,
    ) by {
        assert(order[i] < keys.len());
        assert(entries[order[i] as int].0@ == labels[i]@);
    }
    assert forall|label: Seq<char>| #[trigger]
        has_label(rows, label) implies crate::text::list_view(labels).contains(label) by {
        assert(totals.contains_key(label));
        assert(crate::text_map::entries_map(entries).contains_key(label));
        let k = choose|k: int| crate::text_map::holds_at(entries, label, k);
        assert(crate::text_map::holds_at(entries, label, k));
        crate::sort::lemma_order_covers(keys, order, k);
        let at = choose|at: int| 0 <= at < order.len() && #[trigger] order[at] == k;
        assert(labels[at]@ == label);
        assert(crate::text::list_view(labels)[at] == label);
    }
    assert forall|i: int, j: int| 0 <= i < j < labels.len() implies ranks_before(
        (#[trigger] labels[i])@,
        label_total(rows, labels[i]@),
        (#[trigger] labels[j])@,
        label_total(rows, labels[j]@),
    ) by {
        let x = order[i] as int;
        let y = order[j] as int;
        assert(order[i] < keys.len() && order[j] < keys.len());
        assert(order[i] != order[j]);
        assert(keys[x].at_most(keys[y]));
        assert(labels[i] == entries[x].0 && labels[j] == entries[y].0);
        assert(entries[x].1 == label_total(rows, entries[x].0@));
        assert(entries[y].1 == label_total(rows, entries[y].0@));
        assert(entries[x].0@ != entries[y].0@) by {
            if x < y {
                assert(crate::text_map::text_before(entries[x].0@, entries[y].0@));
            } else {
                assert(crate::text_map::text_before(entries[y].0@, entries[x].0@));
            }
        }
    }
}

/// No label is listed twice, and what is not shown on its own is listed last.
pub proof fn law_labels_are_ranked(rows: Seq<ConsumptionRow>, labels: Seq<String>, i: int, j: int)
    requires
        forall|a: int, b: int|
            0 <= a < b < labels.len() ==> ranks_before(
                (#[trigger] labels[a])@,
                label_total(rows, labels[a]@),
                (#[trigger] labels[b])@,
                label_total(rows, labels[b]@),
            ),
        0 <= i < j < labels.len(),
    ensures
        labels[i]@ != labels[j]@,
        labels[i]@ != OTHER@,
{
    assert(ranks_before(
        labels[i]@,
        label_total(rows, labels[i]@),
        labels[j]@,
        label_total(rows, labels[j]@),
    ));
}

/// One row more adds its cost to its own label and to no other.
pub proof fn law_each_row_counts_for_its_label(
    rows: Seq<ConsumptionRow>,
    row: ConsumptionRow,
    label: Seq<char>,
)
    ensures
        label_total(seq![], label) == 0,
        row.model_label@ == label ==> label_total(rows.push(row), label) == label_total(rows, label)
            + row.cost_nano,
        row.model_label@ != label ==> label_total(rows.push(row), label) == label_total(
            rows,
            label,
        ),
        has_label(rows, label) <==> exists|i: int|
            0 <= i < rows.len() && (#[trigger] rows[i]).model_label@ == label,
{
    assert(rows.push(row).drop_last() =~= rows);
}

/// What is not shown on its own comes last, the dearer of two labels first, and
/// labels of the same cost by name.
pub proof fn law_labels_rank_by_cost(a: Seq<char>, a_total: int, b: Seq<char>, b_total: int)
    ensures
        a == "Other"@ ==> !ranks_before(a, a_total, b, b_total),
        a != "Other"@ && b == "Other"@ ==> ranks_before(a, a_total, b, b_total),
        a != "Other"@ && b != "Other"@ && a_total > b_total ==> ranks_before(
            a,
            a_total,
            b,
            b_total,
        ),
        a != "Other"@ && b != "Other"@ && a_total < b_total ==> !ranks_before(
            a,
            a_total,
            b,
            b_total,
        ),
        a != "Other"@ && b != "Other"@ && a_total == b_total ==> (ranks_before(
            a,
            a_total,
            b,
            b_total,
        ) <==> crate::sort::text_at_most(a, b) && a != b),
{
}

} // verus!

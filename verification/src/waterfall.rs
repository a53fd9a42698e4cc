//! A budget poured over capacities in order: each capacity is filled before
//! the next one receives anything.
use vstd::prelude::*;

verus! {

/// The smaller of two integers.
pub open spec fn lesser(a: int, b: int) -> int {
    if a <= b {
        a
    } else {
        b
    }
}

/// The larger of two integers.
pub open spec fn greater(a: int, b: int) -> int {
    if a <= b {
        b
    } else {
        a
    }
}

/// `value` brought into the range of a signed 64-bit number.
pub open spec fn saturated(value: int) -> int {
    if value < i64::MIN {
        i64::MIN as int
    } else if value > i64::MAX {
        i64::MAX as int
    } else {
        value
    }
}

/// What is left of a spend limit after what it has consumed, never below zero.
pub open spec fn capacity(limit: i64, consumed: i64) -> int {
    greater(saturated(limit - consumed), 0)
}

/// Addition that stops at the ends of the range.
pub fn saturating_add(a: i64, b: i64) -> (r: i64)
    ensures
        r == saturated(a + b),
{
    let exact: i128 = a as i128 + b as i128;
    clamp(exact)
}

/// Subtraction that stops at the ends of the range.
pub fn saturating_sub(a: i64, b: i64) -> (r: i64)
    ensures
        r == saturated(a - b),
{
    let exact: i128 = a as i128 - b as i128;
    clamp(exact)
}

fn clamp(exact: i128) -> (r: i64)
    ensures
        r == saturated(exact as int),
{
    if exact < i64::MIN as i128 {
        i64::MIN
    } else if exact > i64::MAX as i128 {
        i64::MAX
    } else {
        exact as i64
    }
}

/// What is left of a spend limit, never below zero.
pub fn remaining_capacity(limit: i64, consumed: i64) -> (r: i64)
    ensures
        r == capacity(limit, consumed),
        r >= 0,
{
    let left: i64 = saturating_sub(limit, consumed);
    if left < 0 {
        0
    } else {
        left
    }
}

/// The smallest of three numbers.
pub fn least(a: i64, b: i64, c: i64) -> (r: i64)
    ensures
        r == lesser(lesser(a as int, b as int), c as int),
{
    let ab: i64 = if a <= b {
        a
    } else {
        b
    };
    if ab <= c {
        ab
    } else {
        c
    }
}

/// The sum of the first `n` capacities.
pub open spec fn level(capacities: Seq<int>, n: int) -> int
    decreases n,
{
    if n <= 0 {
        0
    } else {
        level(capacities, n - 1) + capacities[n - 1]
    }
}

/// The part of `budget` that falls to capacity `i`: what lies between the
/// levels below and above it.
pub open spec fn share(capacities: Seq<int>, budget: int, i: int) -> int {
    lesser(budget, level(capacities, i + 1)) - lesser(budget, level(capacities, i))
}

/// The positions below `n` that receive a share, in order.
pub open spec fn funded(capacities: Seq<int>, budget: int, n: int) -> Seq<int>
    decreases n,
{
    if n <= 0 {
        seq![]
    } else if share(capacities, budget, n - 1) > 0 {
        funded(capacities, budget, n - 1).push(n - 1)
    } else {
        funded(capacities, budget, n - 1)
    }
}

/// The sum of all shares of the first `n` capacities.
pub open spec fn shares_total(capacities: Seq<int>, budget: int, n: int) -> int
    decreases n,
{
    if n <= 0 {
        0
    } else {
        shares_total(capacities, budget, n - 1) + share(capacities, budget, n - 1)
    }
}

/// Whether no capacity is negative.
pub open spec fn non_negative(capacities: Seq<int>) -> bool {
    forall|i: int| 0 <= i < capacities.len() ==> #[trigger] capacities[i] >= 0
}

pub proof fn lemma_level_monotonic(capacities: Seq<int>, i: int, j: int)
    requires
        non_negative(capacities),
        0 <= i <= j <= capacities.len(),
    ensures
        0 <= level(capacities, i) <= level(capacities, j),
    decreases j,
{
    if i < j {
        lemma_level_monotonic(capacities, i, j - 1);
    } else if i > 0 {
        lemma_level_monotonic(capacities, i - 1, j - 1);
    }
}

/// Levels never fall.
pub proof fn lemma_levels_sorted(capacities: Seq<int>)
    requires
        non_negative(capacities),
    ensures
        forall|i: int, j: int|
            0 <= i <= j <= capacities.len() ==> 0 <= #[trigger] level(capacities, i)
                <= #[trigger] level(capacities, j),
{
    assert forall|i: int, j: int| 0 <= i <= j <= capacities.len() implies 0 <= #[trigger] level(
        capacities,
        i,
    ) <= #[trigger] level(capacities, j) by {
        lemma_level_monotonic(capacities, i, j);
    }
}

/// No share is negative and none exceeds its capacity.
pub proof fn law_share_within_capacity(capacities: Seq<int>, budget: int, i: int)
    requires
        non_negative(capacities),
        budget >= 0,
        0 <= i < capacities.len(),
    ensures
        0 <= share(capacities, budget, i) <= capacities[i],
{
    lemma_level_monotonic(capacities, i, i + 1);
}

/// The shares add up to the budget, or to all capacity where that is less.
pub proof fn law_shares_add_up(capacities: Seq<int>, budget: int, n: int)
    requires
        non_negative(capacities),
        budget >= 0,
        0 <= n <= capacities.len(),
    ensures
        shares_total(capacities, budget, n) == lesser(budget, level(capacities, n)),
    decreases n,
{
    if n > 0 {
        law_shares_add_up(capacities, budget, n - 1);
        lemma_level_monotonic(capacities, n - 1, n);
    }
}

/// A capacity receives something only once every capacity before it is full.
pub proof fn law_earlier_capacities_fill_first(
    capacities: Seq<int>,
    budget: int,
    earlier: int,
    later: int,
)
    requires
        non_negative(capacities),
        budget >= 0,
        0 <= earlier < later < capacities.len(),
        share(capacities, budget, later) > 0,
    ensures
        share(capacities, budget, earlier) == capacities[earlier],
{
    lemma_level_monotonic(capacities, earlier, later);
    lemma_level_monotonic(capacities, earlier + 1, later);
    lemma_level_monotonic(capacities, later, later + 1);
}

/// Whether `positions` ascend strictly and stay between zero and `n`.
pub open spec fn ascending_below(positions: Seq<int>, n: int) -> bool {
    &&& forall|k: int| 0 <= k < positions.len() ==> 0 <= #[trigger] positions[k] < n
    &&& forall|k: int, l: int|
        0 <= k < l < positions.len() ==> #[trigger] positions[k] < #[trigger] positions[l]
}

/// The funded positions ascend, lie below `n`, and are exactly those with a
/// positive share.
pub proof fn law_funded_positions(capacities: Seq<int>, budget: int, n: int)
    requires
        0 <= n <= capacities.len(),
    ensures
        ascending_below(funded(capacities, budget, n), n),
        forall|i: int|
            0 <= i < n ==> (funded(capacities, budget, n).contains(i) <==> #[trigger] share(
                capacities,
                budget,
                i,
            ) > 0),
    decreases n,
{
    if n > 0 {
        law_funded_positions(capacities, budget, n - 1);
        let shorter = funded(capacities, budget, n - 1);
        let list = funded(capacities, budget, n);
        assert forall|i: int| 0 <= i < n implies (list.contains(i) <==> #[trigger] share(
            capacities,
            budget,
            i,
        ) > 0) by {
            if shorter.contains(i) {
                let k = choose|k: int| 0 <= k < shorter.len() && shorter[k] == i;
                assert(list[k] == i);
            }
            if i == n - 1 && share(capacities, budget, i) > 0 {
                assert(list[list.len() - 1] == i);
            }
        }
    }
}

/// Once the budget is used up, no later position is funded.
pub proof fn lemma_nothing_left(capacities: Seq<int>, budget: int, i: int, n: int)
    requires
        non_negative(capacities),
        0 <= i <= n <= capacities.len(),
        budget <= level(capacities, i),
    ensures
        funded(capacities, budget, n) == funded(capacities, budget, i),
    decreases n,
{
    if i < n {
        lemma_nothing_left(capacities, budget, i, n - 1);
        lemma_level_monotonic(capacities, i, n - 1);
        lemma_level_monotonic(capacities, i, n);
    }
}

/// What is left of capacity `i` once `used` has been poured.
pub open spec fn left_of(capacities: Seq<int>, used: int, i: int) -> int {
    greater(0, level(capacities, i + 1) - greater(used, level(capacities, i)))
}

/// The part of `budget` that debt `j` takes from capacity `i`, where debts are
/// met in order and each takes from the first capacities that have something
/// left: the stretch that debt and capacity have in common below the budget.
pub open spec fn overlap(capacities: Seq<int>, debts: Seq<int>, budget: int, j: int, i: int) -> int {
    greater(
        0,
        lesser(lesser(budget, level(debts, j + 1)), level(capacities, i + 1)) - greater(
            level(debts, j),
            level(capacities, i),
        ),
    )
}

/// The pairs of a debt and a capacity that have a part in common: all pairs
/// whose debt is before `j`, and those of debt `j` with a capacity before `i`.
pub open spec fn matched(
    capacities: Seq<int>,
    debts: Seq<int>,
    budget: int,
    j: int,
    i: int,
) -> Seq<(int, int)>
    decreases j, i,
{
    if i > 0 {
        if overlap(capacities, debts, budget, j, i - 1) > 0 {
            matched(capacities, debts, budget, j, i - 1).push((j, i - 1))
        } else {
            matched(capacities, debts, budget, j, i - 1)
        }
    } else if j > 0 {
        matched(capacities, debts, budget, j - 1, capacities.len() as int)
    } else {
        seq![]
    }
}

/// All that the first `j` debts take.
pub open spec fn settled(capacities: Seq<int>, debts: Seq<int>, budget: int, j: int) -> int {
    lesser(lesser(budget, level(debts, j)), level(capacities, capacities.len() as int))
}

/// What a debt takes from the first `n` capacities.
pub open spec fn debt_total(
    capacities: Seq<int>,
    debts: Seq<int>,
    budget: int,
    j: int,
    n: int,
) -> int
    decreases n,
{
    if n <= 0 {
        0
    } else {
        debt_total(capacities, debts, budget, j, n - 1) + overlap(
            capacities,
            debts,
            budget,
            j,
            n - 1,
        )
    }
}

/// What the first `m` debts take from a capacity.
pub open spec fn capacity_total(
    capacities: Seq<int>,
    debts: Seq<int>,
    budget: int,
    i: int,
    m: int,
) -> int
    decreases m,
{
    if m <= 0 {
        0
    } else {
        capacity_total(capacities, debts, budget, i, m - 1) + overlap(
            capacities,
            debts,
            budget,
            m - 1,
            i,
        )
    }
}

/// Where nothing of the stretch of debt `j` lies past capacity `i`, the debt is
/// matched with no later capacity.
pub proof fn lemma_matched_row_ends(
    capacities: Seq<int>,
    debts: Seq<int>,
    budget: int,
    j: int,
    i: int,
)
    requires
        non_negative(capacities),
        non_negative(debts),
        0 <= j < debts.len(),
        0 <= i <= capacities.len(),
        forall|k: int| i <= k < capacities.len() ==> #[trigger] overlap(capacities, debts, budget, j, k) == 0,
    ensures
        matched(capacities, debts, budget, j + 1, 0) == matched(capacities, debts, budget, j, i),
{
    lemma_matched_row_tail(capacities, debts, budget, j, i, capacities.len() as int);
}

proof fn lemma_matched_row_tail(
    capacities: Seq<int>,
    debts: Seq<int>,
    budget: int,
    j: int,
    i: int,
    n: int,
)
    requires
        0 <= i <= n <= capacities.len(),
        forall|k: int| i <= k < capacities.len() ==> #[trigger] overlap(capacities, debts, budget, j, k) == 0,
    ensures
        matched(capacities, debts, budget, j, n) == matched(capacities, debts, budget, j, i),
    decreases n,
{
    if i < n {
        lemma_matched_row_tail(capacities, debts, budget, j, i, n - 1);
        assert(overlap(capacities, debts, budget, j, n - 1) == 0);
    }
}

/// Once the budget is used up, no later debt is matched.
pub proof fn lemma_matched_ends(
    capacities: Seq<int>,
    debts: Seq<int>,
    budget: int,
    j: int,
    m: int,
)
    requires
        non_negative(capacities),
        non_negative(debts),
        0 <= j <= m <= debts.len(),
        budget <= level(debts, j),
    ensures
        matched(capacities, debts, budget, m, 0) == matched(capacities, debts, budget, j, 0),
    decreases m,
{
    if j < m {
        lemma_matched_ends(capacities, debts, budget, j, m - 1);
        lemma_levels_sorted(debts);
        assert forall|k: int| 0 <= k < capacities.len() implies #[trigger] overlap(
            capacities,
            debts,
            budget,
            m - 1,
            k,
        ) == 0 by {
            assert(level(debts, j) <= level(debts, m - 1));
        }
        lemma_matched_row_ends(capacities, debts, budget, m - 1, 0);
    }
}

/// A debt takes no more than it is owed, and all debts together take what the
/// budget, the debts and the capacities allow.
pub proof fn law_debts_are_met_in_order(
    capacities: Seq<int>,
    debts: Seq<int>,
    budget: int,
    j: int,
)
    requires
        non_negative(capacities),
        non_negative(debts),
        budget >= 0,
        0 <= j < debts.len(),
    ensures
        debt_total(capacities, debts, budget, j, capacities.len() as int) == settled(
            capacities,
            debts,
            budget,
            j + 1,
        ) - settled(capacities, debts, budget, j),
        0 <= debt_total(capacities, debts, budget, j, capacities.len() as int) <= debts[j],
{
    lemma_debt_prefix(capacities, debts, budget, j, capacities.len() as int);
    lemma_levels_sorted(debts);
    lemma_levels_sorted(capacities);
    assert(level(debts, j) <= level(debts, j + 1));
    assert(0 <= level(capacities, capacities.len() as int));
}

proof fn lemma_debt_prefix(capacities: Seq<int>, debts: Seq<int>, budget: int, j: int, n: int)
    requires
        non_negative(capacities),
        non_negative(debts),
        budget >= 0,
        0 <= j < debts.len(),
        0 <= n <= capacities.len(),
    ensures
        debt_total(capacities, debts, budget, j, n) == lesser(
            lesser(budget, level(debts, j + 1)),
            level(capacities, n),
        ) - lesser(lesser(budget, level(debts, j)), level(capacities, n)),
    decreases n,
{
    lemma_levels_sorted(debts);
    lemma_levels_sorted(capacities);
    assert(0 <= level(debts, j) <= level(debts, j + 1));
    if n > 0 {
        lemma_debt_prefix(capacities, debts, budget, j, n - 1);
        assert(0 <= level(capacities, n - 1) <= level(capacities, n));
    }
}

/// No capacity gives more than it has.
pub proof fn law_capacity_is_not_exceeded(
    capacities: Seq<int>,
    debts: Seq<int>,
    budget: int,
    i: int,
)
    requires
        non_negative(capacities),
        non_negative(debts),
        budget >= 0,
        0 <= i < capacities.len(),
    ensures
        0 <= capacity_total(capacities, debts, budget, i, debts.len() as int) <= capacities[i],
{
    lemma_capacity_prefix(capacities, debts, budget, i, debts.len() as int);
    lemma_levels_sorted(capacities);
    lemma_levels_sorted(debts);
    assert(level(capacities, i) <= level(capacities, i + 1));
    assert(0 <= level(debts, debts.len() as int));
}

proof fn lemma_capacity_prefix(capacities: Seq<int>, debts: Seq<int>, budget: int, i: int, m: int)
    requires
        non_negative(capacities),
        non_negative(debts),
        budget >= 0,
        0 <= i < capacities.len(),
        0 <= m <= debts.len(),
    ensures
        capacity_total(capacities, debts, budget, i, m) == lesser(
            lesser(budget, level(debts, m)),
            level(capacities, i + 1),
        ) - lesser(lesser(budget, level(debts, m)), level(capacities, i)),
    decreases m,
{
    lemma_levels_sorted(debts);
    lemma_levels_sorted(capacities);
    assert(0 <= level(capacities, i) <= level(capacities, i + 1));
    if m > 0 {
        lemma_capacity_prefix(capacities, debts, budget, i, m - 1);
        assert(0 <= level(debts, m - 1) <= level(debts, m));
    }
}

/// A debt takes something only once every debt before it is met in full.
pub proof fn law_oldest_debts_are_met_first(
    capacities: Seq<int>,
    debts: Seq<int>,
    budget: int,
    older: int,
    newer: int,
)
    requires
        non_negative(capacities),
        non_negative(debts),
        budget >= 0,
        0 <= older < newer < debts.len(),
        debt_total(capacities, debts, budget, newer, capacities.len() as int) > 0,
    ensures
        debt_total(capacities, debts, budget, older, capacities.len() as int) == debts[older],
{
    law_debts_are_met_in_order(capacities, debts, budget, older);
    law_debts_are_met_in_order(capacities, debts, budget, newer);
    lemma_levels_sorted(debts);
    assert(level(debts, older) <= level(debts, older + 1));
    assert(level(debts, older + 1) <= level(debts, newer));
}

/// The matched pairs come by debt and, for one debt, by capacity, and are
/// exactly those with a part in common.
pub proof fn law_matched_pairs(
    capacities: Seq<int>,
    debts: Seq<int>,
    budget: int,
    j: int,
    i: int,
)
    requires
        0 <= j,
        0 <= i <= capacities.len(),
    ensures
        ({
            let pairs = matched(capacities, debts, budget, j, i);
            &&& forall|k: int|
                0 <= k < pairs.len() ==> 0 <= (#[trigger] pairs[k]).0 && 0 <= pairs[k].1
                    < capacities.len() && (pairs[k].0 < j || (pairs[k].0 == j && pairs[k].1 < i))
            &&& forall|k: int, l: int|
                0 <= k < l < pairs.len() ==> (#[trigger] pairs[k]).0 < (#[trigger] pairs[l]).0 || (
                pairs[k].0 == pairs[l].0 && pairs[k].1 < pairs[l].1)
            &&& forall|d: int, c: int|
                0 <= d && 0 <= c < capacities.len() && (d < j || (d == j && c < i)) ==> (
                pairs.contains((d, c)) <==> #[trigger] overlap(capacities, debts, budget, d, c) > 0)
        }),
    decreases j, i,
{
    let pairs = matched(capacities, debts, budget, j, i);
    if i > 0 {
        law_matched_pairs(capacities, debts, budget, j, i - 1);
        let shorter = matched(capacities, debts, budget, j, i - 1);
        assert forall|k: int| 0 <= k < shorter.len() implies #[trigger] pairs[k] == shorter[k] by {}
        assert forall|k: int| 0 <= k < pairs.len() implies 0 <= (#[trigger] pairs[k]).0 && 0
            <= pairs[k].1 < capacities.len() && (pairs[k].0 < j || (pairs[k].0 == j && pairs[k].1
            < i)) by {
            if k < shorter.len() {
                assert(pairs[k] == shorter[k]);
            }
        }
        assert forall|k: int, l: int| 0 <= k < l < pairs.len() implies (#[trigger] pairs[k]).0 < (
        #[trigger] pairs[l]).0 || (pairs[k].0 == pairs[l].0 && pairs[k].1 < pairs[l].1) by {
            assert(pairs[k] == shorter[k]);
            if l < shorter.len() {
                assert(pairs[l] == shorter[l]);
            }
        }
        assert forall|d: int, c: int|
            0 <= d && 0 <= c < capacities.len() && (d < j || (d == j && c < i)) implies (
        pairs.contains((d, c)) <==> #[trigger] overlap(capacities, debts, budget, d, c) > 0) by {
            if shorter.contains((d, c)) {
                let k = choose|k: int| 0 <= k < shorter.len() && shorter[k] == (d, c);
                assert(pairs[k] == (d, c));
            }
            if d == j && c == i - 1 && overlap(capacities, debts, budget, d, c) > 0 {
                assert(pairs[pairs.len() - 1] == (d, c));
            }
            if pairs.contains((d, c)) {
                let k = choose|k: int| 0 <= k < pairs.len() && pairs[k] == (d, c);
                if k < shorter.len() {
                    assert(shorter[k] == (d, c));
                }
            }
        }
    } else if j > 0 {
        law_matched_pairs(capacities, debts, budget, j - 1, capacities.len() as int);
        let earlier = matched(capacities, debts, budget, j - 1, capacities.len() as int);
        assert(pairs == earlier);
        assert forall|k: int| 0 <= k < pairs.len() implies 0 <= (#[trigger] pairs[k]).0 && 0
            <= pairs[k].1 < capacities.len() && (pairs[k].0 < j || (pairs[k].0 == j && pairs[k].1
            < i)) by {
            assert(earlier[k] == pairs[k]);
        }
        assert forall|d: int, c: int|
            0 <= d && 0 <= c < capacities.len() && (d < j || (d == j && c < i)) implies (
        pairs.contains((d, c)) <==> #[trigger] overlap(capacities, debts, budget, d, c) > 0) by {
            assert(d < j - 1 || (d == j - 1 && c < capacities.len()));
        }
    } else {
        assert(pairs == Seq::<(int, int)>::empty());
    }
}

/// Numbers within the range are themselves, those past an end are that end.
pub proof fn law_saturation_stops_at_the_ends(value: int)
    ensures
        -0x8000_0000_0000_0000 <= value <= 0x7fff_ffff_ffff_ffff ==> saturated(value) == value,
        value > 0x7fff_ffff_ffff_ffff ==> saturated(value) == 0x7fff_ffff_ffff_ffff,
        value < -0x8000_0000_0000_0000 ==> saturated(value) == -0x8000_0000_0000_0000,
{
}

/// What is left of a limit is the difference to what was consumed, as far as it
/// fits, and nothing where more was consumed than the limit.
pub proof fn law_capacity_is_the_difference(limit: i64, consumed: i64)
    ensures
        consumed <= limit && limit - consumed <= i64::MAX ==> capacity(limit, consumed) == limit
            - consumed,
        limit - consumed > i64::MAX ==> capacity(limit, consumed) == i64::MAX,
        consumed >= limit ==> capacity(limit, consumed) == 0,
{
}

/// The smaller and the larger of two numbers are among them, on either side.
pub proof fn law_lesser_and_greater_are_the_ends(a: int, b: int)
    ensures
        lesser(a, b) <= a && lesser(a, b) <= b,
        lesser(a, b) == a || lesser(a, b) == b,
        greater(a, b) >= a && greater(a, b) >= b,
        greater(a, b) == a || greater(a, b) == b,
{
}

} // verus!

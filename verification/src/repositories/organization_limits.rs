//! What an organization may spend of each type of credit.
use crate::error::{not_found, RepositoryError};
use crate::ids::Uuid;
use crate::models::OrganizationLimitsHistory;
use crate::waterfall::{remaining_capacity, saturating_add, saturating_sub};
use vstd::prelude::*;
use vstd::string::StringExecFns;

verus! {

/// The limit of one type of credit, what was consumed of it, and what is left.
/// What was consumed outlives a change of the limit, so that a higher limit
/// adds no more than the difference.
#[derive(Debug, Clone)]
pub struct CurrentCreditStatus {
    pub limit: OrganizationLimitsHistory,
    pub consumed: i64,
    pub available: i64,
}

/// What is left of a limit.
pub fn credit_status(limit: OrganizationLimitsHistory, consumed: i64) -> (r: CurrentCreditStatus)
    ensures
        r.limit == limit,
        r.consumed == consumed,
        r.available == crate::waterfall::capacity(limit.spend_limit, consumed),
{
    CurrentCreditStatus {
        available: remaining_capacity(limit.spend_limit, consumed),
        limit,
        consumed,
    }
}

/// Reports an organization whose limits cannot be changed because it does not
/// exist or is not active.
pub fn update_limits(organization_id: Uuid, organization_found: bool) -> (r: Result<
    (),
    RepositoryError,
>)
    ensures
        match r {
            Ok(_) => organization_found,
            Err(e) => !organization_found && e@ == crate::error::RepositoryErrorView::NotFound(
                "Organization not found: "@ + crate::ids::hyphenated(organization_id),
            ),
        },
{
    if organization_found {
        Ok(())
    } else {
        let mut message = "Organization not found: ".to_owned();
        message.append(organization_id.to_text().as_str());
        Err(not_found(message.as_str()))
    }
}

/// What an organization may spend in all.
#[derive(Debug, Clone, Copy, PartialEq, Eq, Structural)]
pub struct OrganizationLimit {
    pub spend_limit: i64,
    pub available: i64,
    pub unfunded: i64,
}

/// A sum that stops at the ends of the range.
pub open spec fn saturating_total(values: Seq<int>) -> int
    decreases values.len(),
{
    if values.len() == 0 {
        0
    } else {
        crate::waterfall::saturated(saturating_total(values.drop_last()) + values.last())
    }
}

/// What is available in all: the sum of what is left of each type, less usage
/// that was never attributed to a type, and never below zero.
pub open spec fn available_total(values: Seq<int>, unattributed: i64) -> int {
    crate::waterfall::greater(
        crate::waterfall::saturated(saturating_total(values) - unattributed),
        0,
    )
}

/// The limits of statuses.
pub open spec fn limits_of(statuses: Seq<CurrentCreditStatus>) -> Seq<int> {
    statuses.map_values(|s: CurrentCreditStatus| s.limit.spend_limit as int)
}

/// What statuses have left.
pub open spec fn left_of_each(statuses: Seq<CurrentCreditStatus>) -> Seq<int> {
    statuses.map_values(|s: CurrentCreditStatus| s.available as int)
}

/// What an organization may spend in all, counting every type of credit; none
/// where it has no limits.
pub fn get_current_limits(
    statuses: &Vec<CurrentCreditStatus>,
    unfunded: i64,
    unattributed: i64,
) -> (r: Option<OrganizationLimit>)
    ensures
        match r {
            None => statuses@.len() == 0,
            Some(limit) => {
                &&& statuses@.len() > 0
                &&& limit.spend_limit == saturating_total(limits_of(statuses@))
                &&& limit.available == available_total(left_of_each(statuses@), unattributed)
                &&& limit.unfunded == unfunded
            },
        },
{
    if statuses.len() == 0 {
        return None;
    }
    let ghost limits = limits_of(statuses@);
    let ghost left = left_of_each(statuses@);
    let mut spend_limit: i64 = 0;
    let mut available: i64 = 0;
    let mut i: usize = 0;
    while i < statuses.len()
        invariant
            i <= statuses@.len(),
            limits == limits_of(statuses@),
            left == left_of_each(statuses@),
            spend_limit == saturating_total(limits.take(i as int)),
            available == saturating_total(left.take(i as int)),
        decreases statuses.len() - i,
    {
        proof {
            assert(limits.take(i + 1).drop_last() =~= limits.take(i as int));
            assert(left.take(i + 1).drop_last() =~= left.take(i as int));
        }
        spend_limit = saturating_add(spend_limit, statuses[i].limit.spend_limit);
        available = saturating_add(available, statuses[i].available);
        i = i + 1;
    }
    assert(limits.take(limits.len() as int) =~= limits);
    assert(left.take(left.len() as int) =~= left);
    let less: i64 = saturating_sub(available, unattributed);
    Some(
        OrganizationLimit {
            spend_limit,
            available: if less < 0 {
                0
            } else {
                less
            },
            unfunded,
        },
    )
}

/// The limit of one type of credit, as callers see it.
#[derive(Debug, Clone)]
pub struct OrganizationCreditLimit {
    pub credit_type: String,
    pub source: Option<String>,
    pub amount: i64,
    pub consumed: i64,
    pub available: i64,
    pub currency: String,
}

/// What is shown as consumed of a type: with a single type, usage that was
/// never attributed counts against it.
pub open spec fn shown_consumed(status: CurrentCreditStatus, single: bool, unattributed: i64) -> int {
    if single {
        crate::waterfall::saturated(status.consumed + unattributed)
    } else {
        status.consumed as int
    }
}

/// What is shown as left of a type.
pub open spec fn shown_available(status: CurrentCreditStatus, single: bool, unattributed: i64) -> int {
    if single {
        crate::waterfall::capacity(
            status.limit.spend_limit,
            shown_consumed(status, single, unattributed) as i64,
        )
    } else {
        status.available as int
    }
}

/// The limits of an organization by type. With several types, usage that was
/// never attributed is left out rather than split by guess.
pub fn get_current_limit_breakdown(statuses: &Vec<CurrentCreditStatus>, unattributed: i64) -> (r:
    Vec<OrganizationCreditLimit>)
    ensures
        r@.len() == statuses@.len(),
        forall|i: int|
            0 <= i < r@.len() ==> {
                let status = statuses@[i];
                &&& (#[trigger] r@[i]).credit_type@ == status.limit.credit_type@
                &&& crate::text::optional_view(r@[i].source) == crate::text::optional_view(
                    status.limit.source,
                )
                &&& r@[i].amount == status.limit.spend_limit
                &&& r@[i].consumed == shown_consumed(status, statuses@.len() == 1, unattributed)
                &&& r@[i].available == shown_available(status, statuses@.len() == 1, unattributed)
                &&& r@[i].currency@ == status.limit.currency@
            },
{
    let single: bool = statuses.len() == 1;
    let mut limits: Vec<OrganizationCreditLimit> = Vec::new();
    let mut i: usize = 0;
    while i < statuses.len()
        invariant
            i <= statuses@.len(),
            single == (statuses@.len() == 1),
            limits@.len() == i,
            forall|k: int|
                0 <= k < i ==> {
                    let status = statuses@[k];
                    &&& (#[trigger] limits@[k]).credit_type@ == status.limit.credit_type@
                    &&& crate::text::optional_view(limits@[k].source) == crate::text::optional_view(
                        status.limit.source,
                    )
                    &&& limits@[k].amount == status.limit.spend_limit
                    &&& limits@[k].consumed == shown_consumed(status, single, unattributed)
                    &&& limits@[k].available == shown_available(status, single, unattributed)
                    &&& limits@[k].currency@ == status.limit.currency@
                },
        decreases statuses.len() - i,
    {
        let status = &statuses[i];
        let consumed: i64 = if single {
            saturating_add(status.consumed, unattributed)
        } else {
            status.consumed
        };
        let available: i64 = if single {
            remaining_capacity(status.limit.spend_limit, consumed)
        } else {
            status.available
        };
        limits.push(
            OrganizationCreditLimit {
                credit_type: status.limit.credit_type.clone(),
                source: status.limit.source.clone(),
                amount: status.limit.spend_limit,
                consumed,
                available,
                currency: status.limit.currency.clone(),
            },
        );
        i = i + 1;
    }
    limits
}

/// Raising a limit adds no more than the difference: what was consumed before
/// stays consumed. Where the old limit was not used up it adds all of it.
pub proof fn law_raised_limit_adds_the_difference(old_limit: i64, new_limit: i64, consumed: i64)
    requires
        old_limit <= new_limit,
    ensures
        crate::waterfall::capacity(old_limit, consumed) <= crate::waterfall::capacity(
            new_limit,
            consumed,
        ),
        crate::waterfall::capacity(new_limit, consumed) - crate::waterfall::capacity(
            old_limit,
            consumed,
        ) <= new_limit - old_limit,
        consumed <= old_limit && new_limit - consumed <= i64::MAX
            ==> crate::waterfall::capacity(new_limit, consumed) - crate::waterfall::capacity(
            old_limit,
            consumed,
        ) == new_limit - old_limit,
{
}

/// With a single type of credit, what the breakdown shows as left is what is
/// available in all, as long as what the limit leaves is in range.
pub proof fn law_single_type_agrees_with_total(status: CurrentCreditStatus, unattributed: i64)
    requires
        status.available == crate::waterfall::capacity(status.limit.spend_limit, status.consumed),
        unattributed >= 0,
        status.limit.spend_limit - status.consumed <= i64::MAX,
    ensures
        shown_available(status, true, unattributed) == available_total(
            left_of_each(seq![status]),
            unattributed,
        ),
{
    let left = left_of_each(seq![status]);
    assert(left.drop_last() =~= seq![]);
    assert(saturating_total(seq![]) == 0);
    assert(saturating_total(left) == status.available);
}

/// The exact sum of values.
pub open spec fn exact_total(values: Seq<int>) -> int
    decreases values.len(),
{
    if values.len() == 0 {
        0
    } else {
        exact_total(values.drop_last()) + values.last()
    }
}

/// Where no value is negative and their sum is in range, their total is the sum,
/// and what is available is the sum less the usage that was never attributed,
/// never below zero.
pub proof fn law_totals_are_sums(values: Seq<int>, unattributed: i64)
    requires
        forall|i: int| 0 <= i < values.len() ==> #[trigger] values[i] >= 0,
        exact_total(values) <= i64::MAX,
        unattributed >= 0,
    ensures
        exact_total(values) >= 0,
        saturating_total(values) == exact_total(values),
        exact_total(values) >= unattributed ==> available_total(values, unattributed)
            == exact_total(values) - unattributed,
        exact_total(values) < unattributed ==> available_total(values, unattributed) == 0,
    decreases values.len(),
{
    if values.len() > 0 {
        let shorter = values.drop_last();
        assert forall|i: int| 0 <= i < shorter.len() implies #[trigger] shorter[i] >= 0 by {
            assert(shorter[i] == values[i]);
        }
        assert(values[values.len() - 1] >= 0);
        law_totals_are_sums(shorter, unattributed);
    }
}

/// A total that leaves the range stays at the end it reached: one value more
/// adds itself as far as the range goes.
pub proof fn law_totals_stop_at_the_ends(values: Seq<int>, value: int)
    ensures
        saturating_total(seq![]) == 0,
        i64::MIN <= saturating_total(values) + value <= i64::MAX ==> saturating_total(
            values.push(value),
        ) == saturating_total(values) + value,
        saturating_total(values) + value > i64::MAX ==> saturating_total(values.push(value))
            == i64::MAX,
        saturating_total(values) + value < i64::MIN ==> saturating_total(values.push(value))
            == i64::MIN,
{
    assert(values.push(value).drop_last() =~= values);
}

/// Every type of credit counts, with its own limit and what it has left.
pub proof fn law_every_type_counts(statuses: Seq<CurrentCreditStatus>, i: int)
    requires
        0 <= i < statuses.len(),
    ensures
        limits_of(statuses).len() == statuses.len(),
        limits_of(statuses)[i] == statuses[i].limit.spend_limit,
        left_of_each(statuses).len() == statuses.len(),
        left_of_each(statuses)[i] == statuses[i].available,
{
}

/// What is shown of a type: alone, it also bears the usage that was never
/// attributed; beside others it is shown as it is.
pub proof fn law_unattributed_usage_falls_to_a_single_type(
    status: CurrentCreditStatus,
    unattributed: i64,
)
    ensures
        shown_consumed(status, false, unattributed) == status.consumed,
        shown_available(status, false, unattributed) == status.available,
        i64::MIN <= status.consumed + unattributed <= i64::MAX ==> shown_consumed(
            status,
            true,
            unattributed,
        ) == status.consumed + unattributed,
        i64::MIN <= status.consumed + unattributed <= i64::MAX && 0 <= status.limit.spend_limit
            - status.consumed - unattributed <= i64::MAX ==> shown_available(
            status,
            true,
            unattributed,
        ) == status.limit.spend_limit - status.consumed - unattributed,
        i64::MIN <= status.consumed + unattributed <= i64::MAX && status.limit.spend_limit
            <= status.consumed + unattributed ==> shown_available(status, true, unattributed) == 0,
{
}

/// What is available in all is the total less the usage that was never
/// attributed, never below zero and never above the largest number.
pub proof fn law_unattributed_usage_is_taken_off_the_total(values: Seq<int>, unattributed: i64)
    ensures
        ({
            let rest = saturating_total(values) - unattributed;
            &&& rest <= 0 ==> available_total(values, unattributed) == 0
            &&& 0 <= rest <= i64::MAX ==> available_total(values, unattributed) == rest
            &&& rest > i64::MAX ==> available_total(values, unattributed) == i64::MAX
        }),
{
}

/// A single type that bears more than fits is shown with the largest number.
pub proof fn law_shown_usage_stays_in_range(status: CurrentCreditStatus, unattributed: i64)
    ensures
        status.consumed + unattributed > i64::MAX ==> shown_consumed(status, true, unattributed)
            == i64::MAX,
        status.consumed + unattributed < i64::MIN ==> shown_consumed(status, true, unattributed)
            == i64::MIN,
        shown_available(status, true, unattributed) >= 0,
        0 <= status.limit.spend_limit - shown_consumed(status, true, unattributed) <= i64::MAX
            ==> shown_available(status, true, unattributed) == status.limit.spend_limit
            - shown_consumed(status, true, unattributed),
        status.limit.spend_limit < shown_consumed(status, true, unattributed) ==> shown_available(
            status,
            true,
            unattributed,
        ) == 0,
{
}

/// What is left of a limit is what it has not consumed, and nothing where it has
/// consumed more.
pub proof fn law_status_holds_what_is_left(
    limit: OrganizationLimitsHistory,
    consumed: i64,
    r: CurrentCreditStatus,
)
    requires
        call_ensures(credit_status, (limit, consumed), r),
    ensures
        r.limit == limit,
        r.consumed == consumed,
        limit.spend_limit <= consumed ==> r.available == 0,
        0 <= limit.spend_limit - consumed <= i64::MAX ==> r.available == limit.spend_limit
            - consumed,
        limit.spend_limit - consumed > i64::MAX ==> r.available == i64::MAX,
{
}

/// An organization without limits has none in all; otherwise every type counts
/// toward the limit and toward what is available, and what is unfunded is told.
pub proof fn law_limits_add_up(
    statuses: Vec<CurrentCreditStatus>,
    unfunded: i64,
    unattributed: i64,
    r: Option<OrganizationLimit>,
)
    requires
        unattributed >= 0,
        forall|i: int|
            0 <= i < statuses@.len() ==> (#[trigger] statuses@[i]).limit.spend_limit >= 0
                && statuses@[i].available >= 0,
        exact_total(limits_of(statuses@)) <= i64::MAX,
        exact_total(left_of_each(statuses@)) <= i64::MAX,
        call_ensures(get_current_limits, (&statuses, unfunded, unattributed), r),
    ensures
        r is None <==> statuses@.len() == 0,
        r matches Some(limit) ==> {
            let left = exact_total(left_of_each(statuses@));
            &&& limit.unfunded == unfunded
            &&& limit.spend_limit == exact_total(limits_of(statuses@))
            &&& left >= unattributed ==> limit.available == left - unattributed
            &&& left < unattributed ==> limit.available == 0
        },
{
    let limits = limits_of(statuses@);
    let left = left_of_each(statuses@);
    assert forall|i: int| 0 <= i < limits.len() implies #[trigger] limits[i] >= 0 by {
        assert(statuses@[i].limit.spend_limit >= 0);
    }
    assert forall|i: int| 0 <= i < left.len() implies #[trigger] left[i] >= 0 by {
        assert(statuses@[i].available >= 0);
    }
    law_totals_are_sums(limits, unattributed);
    law_totals_are_sums(left, unattributed);
}

/// The breakdown shows each type at its place; beside others, with its own usage.
pub proof fn law_breakdown_shows_each_type(
    statuses: Vec<CurrentCreditStatus>,
    unattributed: i64,
    r: Vec<OrganizationCreditLimit>,
    i: int,
)
    requires
        call_ensures(get_current_limit_breakdown, (&statuses, unattributed), r),
        0 <= i < statuses@.len(),
    ensures
        r@.len() == statuses@.len(),
        r@[i].amount == statuses@[i].limit.spend_limit,
        r@[i].credit_type@ == statuses@[i].limit.credit_type@,
        r@[i].currency@ == statuses@[i].limit.currency@,
        crate::text::optional_view(r@[i].source) == crate::text::optional_view(
            statuses@[i].limit.source,
        ),
        statuses@.len() > 1 ==> r@[i].consumed == statuses@[i].consumed && r@[i].available
            == statuses@[i].available,
        statuses@.len() == 1 && i64::MIN <= statuses@[i].consumed + unattributed <= i64::MAX
            ==> r@[i].consumed == statuses@[i].consumed + unattributed,
{
    assert(r@[i].amount == statuses@[i].limit.spend_limit);
}

} // verus!

//! What is read to decide whether a request is admitted.
use crate::ids::Uuid;
use crate::repositories::organization_limits::OrganizationLimit;
use crate::text::decimal_text;
use crate::waterfall::{remaining_capacity, saturating_add, saturating_sub};
use vstd::prelude::*;
use vstd::string::StringExecFns;

verus! {

/// The setting for a timeout of statements.
pub fn timeout_setting(millis: u64) -> (r: String)
    ensures
        r@ == crate::text::decimal(millis as nat) + "ms"@,
{
    let mut text = decimal_text(millis);
    text.append("ms");
    text
}

/// One row of the snapshot of an organization: the organization itself, and one
/// of its limits where it has any.
#[derive(Debug, Clone, Copy, PartialEq, Eq, Structural)]
pub struct AdmissionRow {
    pub admission_revision: i64,
    pub total_spent: Option<i64>,
    pub unresolved_unfunded_amount: Option<i64>,
    pub legacy_unattributed_amount: Option<i64>,
    pub spend_limit: Option<i64>,
    pub consumed: i64,
}

/// What is known of an organization at one revision.
#[derive(Debug, Clone, Copy, PartialEq, Eq, Structural)]
pub struct OrganizationAdmissionSnapshot {
    pub organization_id: Uuid,
    pub revision: i64,
    pub total_spent: Option<i64>,
    pub limit: Option<OrganizationLimit>,
}

/// The limits of rows.
pub open spec fn row_limits(rows: Seq<AdmissionRow>) -> Seq<int> {
    rows.map_values(|row: AdmissionRow| row.spend_limit->0 as int)
}

/// What rows have left of their limits.
pub open spec fn row_capacities(rows: Seq<AdmissionRow>) -> Seq<int> {
    rows.map_values(
        |row: AdmissionRow| crate::waterfall::capacity(row.spend_limit->0, row.consumed),
    )
}

/// An optional number, or zero.
pub open spec fn or_zero(value: Option<i64>) -> i64 {
    match value {
        Some(v) => v,
        None => 0,
    }
}

/// The limit that rows describe: none where the first row has none.
pub open spec fn described_limit(rows: Seq<AdmissionRow>) -> Option<OrganizationLimit> {
    if rows[0].spend_limit is None {
        None
    } else {
        Some(
            OrganizationLimit {
                spend_limit: crate::repositories::organization_limits::saturating_total(
                    row_limits(rows),
                ) as i64,
                available: crate::repositories::organization_limits::available_total(
                    row_capacities(rows),
                    or_zero(rows[0].legacy_unattributed_amount),
                ) as i64,
                unfunded: or_zero(rows[0].unresolved_unfunded_amount),
            },
        )
    }
}

/// The sum of the limits of an organization, and what they allow together.
pub fn aggregate_credit_capacity(rows: &Vec<AdmissionRow>, legacy_unattributed: i64) -> (r: (
    i64,
    i64,
))
    requires
        forall|i: int| 0 <= i < rows@.len() ==> (#[trigger] rows@[i]).spend_limit is Some,
    ensures
        r.0 == crate::repositories::organization_limits::saturating_total(row_limits(rows@)),
        r.1 == crate::repositories::organization_limits::available_total(
            row_capacities(rows@),
            legacy_unattributed,
        ),
{
    let ghost limits = row_limits(rows@);
    let ghost left = row_capacities(rows@);
    let mut spend_limit: i64 = 0;
    let mut available: i64 = 0;
    let mut i: usize = 0;
    while i < rows.len()
        invariant
            i <= rows@.len(),
            limits == row_limits(rows@),
            left == row_capacities(rows@),
            forall|k: int| 0 <= k < rows@.len() ==> (#[trigger] rows@[k]).spend_limit is Some,
            spend_limit == crate::repositories::organization_limits::saturating_total(
                limits.take(i as int),
            ),
            available == crate::repositories::organization_limits::saturating_total(
                left.take(i as int),
            ),
        decreases rows.len() - i,
    {
        proof {
            assert(limits.take(i + 1).drop_last() =~= limits.take(i as int));
            assert(left.take(i + 1).drop_last() =~= left.take(i as int));
            assert(rows@[i as int].spend_limit is Some);
        }
        match rows[i].spend_limit {
            Some(limit) => {
                spend_limit = saturating_add(spend_limit, limit);
                available = saturating_add(available, remaining_capacity(limit, rows[i].consumed));
            },
            None => {},
        }
        i = i + 1;
    }
    assert(limits.take(limits.len() as int) =~= limits);
    assert(left.take(left.len() as int) =~= left);
    let less: i64 = saturating_sub(available, legacy_unattributed);
    (
        spend_limit,
        if less < 0 {
            0
        } else {
            less
        },
    )
}

/// Reads the snapshot of an organization. Either every row has a limit, or the
/// only row has none.
pub fn load_organization(organization_id: Uuid, rows: &Vec<AdmissionRow>) -> (r: Result<
    OrganizationAdmissionSnapshot,
    String,
>)
    requires
        rows@.len() > 0 && rows@[0].spend_limit is Some ==> forall|i: int|
            0 <= i < rows@.len() ==> (#[trigger] rows@[i]).spend_limit is Some,
    ensures
        match r {
            Ok(snapshot) => {
                &&& rows@.len() > 0
                &&& snapshot.organization_id == organization_id
                &&& snapshot.revision == rows@[0].admission_revision
                &&& snapshot.total_spent == rows@[0].total_spent
                &&& snapshot.limit == described_limit(rows@)
            },
            Err(message) => rows@.len() == 0 && message@ == "organization not found: "@
                + crate::ids::hyphenated(organization_id),
        },
{
    if rows.len() == 0 {
        let mut message = "organization not found: ".to_owned();
        message.append(organization_id.to_text().as_str());
        return Err(message);
    }
    let first = rows[0];
    let limit = match first.spend_limit {
        None => None,
        Some(_) => {
            let legacy: i64 = match first.legacy_unattributed_amount {
                Some(amount) => amount,
                None => 0,
            };
            let (spend_limit, available) = aggregate_credit_capacity(rows, legacy);
            Some(
                OrganizationLimit {
                    spend_limit,
                    available,
                    unfunded: match first.unresolved_unfunded_amount {
                        Some(amount) => amount,
                        None => 0,
                    },
                },
            )
        },
    };
    Ok(
        OrganizationAdmissionSnapshot {
            organization_id,
            revision: first.admission_revision,
            total_spent: first.total_spent,
            limit,
        },
    )
}

/// What is known of a key, before its usage is known.
#[derive(Debug, Clone, Copy, PartialEq, Eq, Structural)]
pub struct KeyRow {
    pub organization_id: Uuid,
    pub api_key_id: Uuid,
    pub admission_revision: i64,
    pub spend_limit: Option<i64>,
    pub counters_ready: bool,
    pub inference_spent: i64,
}

/// What is known of a key at one revision.
#[derive(Debug, Clone, Copy, PartialEq, Eq, Structural)]
pub struct KeyAdmissionSnapshot {
    pub organization_id: Uuid,
    pub api_key_id: Uuid,
    pub revision: i64,
    pub spend_limit: Option<i64>,
    pub inference_spent: i64,
}

/// What comes after a key was read.
#[derive(Debug, Clone, Copy, PartialEq, Eq, Structural)]
pub enum KeyStep {
    /// Its counters are not ready: its recorded usage must be summed up.
    SumUsage(KeyRow),
    Done(KeyAdmissionSnapshot),
}

/// The snapshot of a key that has spent an amount.
pub open spec fn key_snapshot(row: KeyRow, spent: i64) -> KeyAdmissionSnapshot {
    KeyAdmissionSnapshot {
        organization_id: row.organization_id,
        api_key_id: row.api_key_id,
        revision: row.admission_revision,
        spend_limit: row.spend_limit,
        inference_spent: spent,
    }
}

/// Reads the snapshot of a key from its counters, where they are ready.
pub fn load_key(api_key_id: Uuid, row: Option<KeyRow>) -> (r: Result<KeyStep, String>)
    ensures
        match r {
            Ok(KeyStep::SumUsage(found)) => row == Some(found) && !found.counters_ready,
            Ok(KeyStep::Done(snapshot)) => row is Some && row->0.counters_ready && snapshot
                == key_snapshot(row->0, row->0.inference_spent),
            Err(message) => row is None && message@ == "API key not found for organization: "@
                + crate::ids::hyphenated(api_key_id),
        },
{
    match row {
        None => {
            let mut message = "API key not found for organization: ".to_owned();
            message.append(api_key_id.to_text().as_str());
            Err(message)
        },
        Some(found) => if found.counters_ready {
            Ok(KeyStep::Done(complete_key(found, found.inference_spent)))
        } else {
            Ok(KeyStep::SumUsage(found))
        },
    }
}

/// Completes the snapshot of a key with what it has spent.
pub fn complete_key(row: KeyRow, spent: i64) -> (r: KeyAdmissionSnapshot)
    ensures
        r == key_snapshot(row, spent),
{
    KeyAdmissionSnapshot {
        organization_id: row.organization_id,
        api_key_id: row.api_key_id,
        revision: row.admission_revision,
        spend_limit: row.spend_limit,
        inference_spent: spent,
    }
}

/// The exact sum of what rows have left of their limits.
pub open spec fn left_in_all(rows: Seq<AdmissionRow>) -> int
    decreases rows.len(),
{
    if rows.len() == 0 {
        0
    } else {
        left_in_all(rows.drop_last()) + (if rows.last().spend_limit->0 > rows.last().consumed {
            rows.last().spend_limit->0 - rows.last().consumed
        } else {
            0
        })
    }
}

/// The exact sum of the limits of rows.
pub open spec fn limit_in_all(rows: Seq<AdmissionRow>) -> int
    decreases rows.len(),
{
    if rows.len() == 0 {
        0
    } else {
        limit_in_all(rows.drop_last()) + rows.last().spend_limit->0
    }
}

proof fn lemma_sums(rows: Seq<AdmissionRow>)
    requires
        left_in_all(rows) <= i64::MAX,
    ensures
        0 <= left_in_all(rows),
        crate::repositories::organization_limits::saturating_total(row_capacities(rows))
            == left_in_all(rows),
    decreases rows.len(),
{
    if rows.len() > 0 {
        lemma_left_is_not_negative(rows.drop_last());
        lemma_sums(rows.drop_last());
        assert(row_capacities(rows).drop_last() =~= row_capacities(rows.drop_last()));
    }
}

proof fn lemma_left_is_not_negative(rows: Seq<AdmissionRow>)
    ensures
        0 <= left_in_all(rows),
    decreases rows.len(),
{
    if rows.len() > 0 {
        lemma_left_is_not_negative(rows.drop_last());
    }
}

proof fn lemma_limit_sums(rows: Seq<AdmissionRow>)
    requires
        forall|i: int| 0 <= i < rows.len() ==> (#[trigger] rows[i]).spend_limit->0 >= 0,
        limit_in_all(rows) <= i64::MAX,
    ensures
        0 <= limit_in_all(rows),
        crate::repositories::organization_limits::saturating_total(row_limits(rows))
            == limit_in_all(rows),
    decreases rows.len(),
{
    if rows.len() > 0 {
        let shorter = rows.drop_last();
        assert forall|i: int| 0 <= i < shorter.len() implies (
        #[trigger] shorter[i]).spend_limit->0 >= 0 by {
            assert(shorter[i] == rows[i]);
        }
        assert(rows[rows.len() - 1].spend_limit->0 >= 0);
        lemma_limit_sums(shorter);
        assert(row_limits(rows).drop_last() =~= row_limits(shorter));
    }
}

/// An organization is admitted by the sum of its limits, and by the sum of what
/// is left of them less the usage that was never attributed; one without limits
/// has none.
pub proof fn law_admission_counts_every_limit(rows: Seq<AdmissionRow>, legacy: i64)
    requires
        rows.len() > 0,
        legacy >= 0,
        rows[0].legacy_unattributed_amount == Some(legacy) || (
        rows[0].legacy_unattributed_amount is None && legacy == 0),
        forall|i: int| 0 <= i < rows.len() ==> (#[trigger] rows[i]).spend_limit->0 >= 0,
        limit_in_all(rows) <= i64::MAX,
        left_in_all(rows) <= i64::MAX,
    ensures
        rows[0].spend_limit is None ==> described_limit(rows) is None,
        rows[0].spend_limit is Some ==> {
            let limit = described_limit(rows)->0;
            &&& described_limit(rows) is Some
            &&& limit.spend_limit == limit_in_all(rows)
            &&& left_in_all(rows) >= legacy ==> limit.available == left_in_all(rows) - legacy
            &&& left_in_all(rows) < legacy ==> limit.available == 0
            &&& rows[0].unresolved_unfunded_amount is None ==> limit.unfunded == 0
            &&& rows[0].unresolved_unfunded_amount is Some ==> limit.unfunded
                == rows[0].unresolved_unfunded_amount->0
        },
{
    lemma_sums(rows);
    lemma_limit_sums(rows);
}

/// The snapshot of a key is its own: its organization, its limit and its
/// revision, with what it has spent.
pub proof fn law_key_snapshot_is_the_key(row: KeyRow, spent: i64)
    ensures
        key_snapshot(row, spent).inference_spent == spent,
        key_snapshot(row, spent).spend_limit == row.spend_limit,
        key_snapshot(row, spent).revision == row.admission_revision,
        key_snapshot(row, spent).organization_id == row.organization_id,
        key_snapshot(row, spent).api_key_id == row.api_key_id,
{
}

/// Every row counts with its own limit and with what is left of it.
pub proof fn law_every_row_counts(rows: Seq<AdmissionRow>, i: int)
    requires
        0 <= i < rows.len(),
    ensures
        row_limits(rows).len() == rows.len(),
        row_limits(rows)[i] == rows[i].spend_limit->0,
        row_capacities(rows).len() == rows.len(),
        rows[i].spend_limit->0 <= rows[i].consumed ==> row_capacities(rows)[i] == 0,
        0 <= rows[i].spend_limit->0 - rows[i].consumed <= i64::MAX ==> row_capacities(rows)[i]
            == rows[i].spend_limit->0 - rows[i].consumed,
{
}

/// A snapshot of an organization is that of its first row; without a row there is
/// no such organization.
pub proof fn law_snapshot_is_the_organization(
    organization_id: Uuid,
    rows: Vec<AdmissionRow>,
    r: Result<OrganizationAdmissionSnapshot, String>,
)
    requires
        call_ensures(load_organization, (organization_id, &rows), r),
    ensures
        r is Ok <==> rows@.len() > 0,
        r matches Ok(snapshot) ==> snapshot.organization_id == organization_id
            && snapshot.revision == rows@[0].admission_revision && snapshot.total_spent
            == rows@[0].total_spent && (snapshot.limit is Some <==> rows@[0].spend_limit is Some),
        r matches Err(message) ==> message@ == "organization not found: "@
            + crate::ids::hyphenated(organization_id),
{
}

/// The counter of a key is used where it is ready; otherwise the usage of the key
/// is summed up first, and the snapshot holds that sum.
pub proof fn law_counters_are_used_when_ready(
    api_key_id: Uuid,
    row: KeyRow,
    spent: i64,
    step: Result<KeyStep, String>,
    completed: KeyAdmissionSnapshot,
    missing: Result<KeyStep, String>,
)
    requires
        call_ensures(load_key, (api_key_id, Some(row)), step),
        call_ensures(complete_key, (row, spent), completed),
        call_ensures(load_key, (api_key_id, None::<KeyRow>), missing),
    ensures
        row.counters_ready ==> (step matches Ok(KeyStep::Done(snapshot)) && snapshot.inference_spent
            == row.inference_spent && snapshot.spend_limit == row.spend_limit
            && snapshot.api_key_id == row.api_key_id && snapshot.organization_id
            == row.organization_id && snapshot.revision == row.admission_revision),
        !row.counters_ready ==> step == Ok::<KeyStep, String>(KeyStep::SumUsage(row)),
        completed.inference_spent == spent,
        completed.spend_limit == row.spend_limit,
        completed.api_key_id == row.api_key_id,
        missing matches Err(message) && message@ == "API key not found for organization: "@
            + crate::ids::hyphenated(api_key_id),
{
}

} // verus!

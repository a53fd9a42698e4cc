use database::error::RepositoryError;
use database::ids::Uuid;
use database::repositories::credit_adjustment::{
    check_balance_update, check_request, create, load_adjustment, plan_adjustment, replay,
    reverse_allocations, split_adjustment, AdjustedUsageKind, AdjustmentOutcome,
    CreateCreditAdjustment, CreditAdjustment, CreditAdjustmentKind, CreditAdjustmentRow,
    OpenAllocation, PriorAdjustments, UsageCharge,
};
use database::repositories::credit_allocation::{
    aggregate_available, allocate_usage, complete_allocation, complete_settlement,
    lock_organization_accounting, settle_unfunded_usage, AllocationPhase, CreditAllocationConfig,
    CreditAllocationPolicy, CreditLimitRow, UsageAllocationParent, UsageDebt,
};
use database::time::Timestamp;

const ORG: Uuid = Uuid { value: 77 };
const NOW: Timestamp = Timestamp {
    seconds: 0,
    nanos: 0,
};

fn policy() -> CreditAllocationPolicy {
    CreditAllocationPolicy::from_config(&CreditAllocationConfig {
        priority: vec!["grant".to_string(), "payment".to_string()],
        policy_version: "v1".to_string(),
    })
}

fn limit(id: u128, name: &str, spend_limit: i64, consumed: i64) -> CreditLimitRow {
    CreditLimitRow {
        id: Uuid { value: id },
        credit_type: name.to_string(),
        source: None,
        spend_limit,
        consumed,
    }
}

fn request(amount: i64) -> CreateCreditAdjustment {
    CreateCreditAdjustment {
        organization_id: ORG,
        usage_id: Uuid { value: 5 },
        usage_kind: AdjustedUsageKind::Inference,
        adjustment_kind: CreditAdjustmentKind::Correction,
        amount,
        reason: "wrong price".to_string(),
        idempotency_key: "key-1".to_string(),
        changed_by_user_id: None,
        changed_by_user_email: None,
    }
}

fn adjustment(amount: i64) -> CreditAdjustment {
    CreditAdjustment {
        id: Uuid { value: 1 },
        organization_id: ORG,
        usage_id: Uuid { value: 5 },
        usage_kind: AdjustedUsageKind::Inference,
        adjustment_kind: CreditAdjustmentKind::Correction,
        amount,
        unfunded_amount_reversed: 0,
        reason: "wrong price".to_string(),
        idempotency_key: "key-1".to_string(),
        changed_by_user_id: None,
        changed_by_user_email: None,
        created_at: NOW,
        allocation_reversals: Vec::new(),
    }
}

fn message(error: RepositoryError) -> String {
    match error {
        RepositoryError::ValidationFailed(message) => message,
        RepositoryError::NotFound(message) => message,
        RepositoryError::DatabaseError(message) => message,
        RepositoryError::DataConversionError(message) => message,
        other => panic!("{other:?}"),
    }
}

#[test]
fn a_charge_takes_from_limits_in_order() {
    let rows = vec![limit(1, "grant", 100, 70), limit(2, "payment", 50, 0)];
    let plan = allocate_usage(
        ORG,
        UsageAllocationParent::Inference(Uuid { value: 9 }),
        45,
        &policy(),
        &rows,
        0,
    )
    .unwrap();
    let amounts: Vec<i64> = plan.inserts.iter().map(|i| i.amount).collect();
    assert_eq!(amounts, [30, 15]);
    assert_eq!(plan.funded_amount, 45);
    assert_eq!(plan.unfunded_amount, 0);
    assert_eq!(plan.inserts[1].priority_position, 1);
    assert_eq!(plan.inserts[1].inference_usage_id, Some(Uuid { value: 9 }));
    assert_eq!(plan.inserts[1].service_usage_id, None);
    assert!(matches!(plan.inserts[0].phase, AllocationPhase::Posting));
    let result = complete_allocation(&plan, 1).unwrap();
    assert_eq!(result.allocations.len(), 2);
    assert_eq!(result.allocations[0].credit_type, "grant");
    assert!(complete_allocation(&plan, 0).is_err());
}

#[test]
fn what_no_limit_covers_stays_open() {
    let rows = vec![limit(1, "grant", 10, 0), limit(2, "payment", 20, 25)];
    let plan = allocate_usage(
        ORG,
        UsageAllocationParent::Service(Uuid { value: 9 }),
        40,
        &policy(),
        &rows,
        0,
    )
    .unwrap();
    assert_eq!(plan.funded_amount, 10);
    assert_eq!(plan.unfunded_amount, 30);
    assert_eq!(plan.inserts.len(), 1);
    assert_eq!(
        message(
            allocate_usage(
                ORG,
                UsageAllocationParent::Service(Uuid { value: 9 }),
                -1,
                &policy(),
                &rows,
                0
            )
            .unwrap_err()
        ),
        "usage cost must be non-negative"
    );
}

#[test]
fn usage_from_before_lowers_what_is_available() {
    let rows = vec![limit(1, "grant", 10, 0), limit(2, "payment", 20, 0)];
    assert_eq!(aggregate_available(&rows, 25), 5);
    assert_eq!(aggregate_available(&rows, 99), 0);
    let plan = allocate_usage(
        ORG,
        UsageAllocationParent::Service(Uuid { value: 9 }),
        40,
        &policy(),
        &rows,
        25,
    )
    .unwrap();
    assert_eq!(plan.funded_amount, 5);
}

#[test]
fn long_priorities_are_refused_only_where_they_are_reached() {
    let mut rows: Vec<CreditLimitRow> = (0..32_768).map(|i| limit(i, "grant", 0, 0)).collect();
    rows.push(limit(40_000, "grant", 5, 0));
    let parent = UsageAllocationParent::Service(Uuid { value: 9 });
    assert_eq!(
        message(allocate_usage(ORG, parent, 5, &policy(), &rows, 0).unwrap_err()),
        "credit priority is too long"
    );
    rows[0].spend_limit = 5;
    assert_eq!(
        allocate_usage(ORG, parent, 5, &policy(), &rows, 0)
            .unwrap()
            .inserts
            .len(),
        1
    );
}

#[test]
fn oldest_debts_are_settled_first() {
    let debt = |id: u128, outstanding: i64| UsageDebt {
        usage_kind: "service".to_string(),
        usage_id: Uuid { value: id },
        outstanding,
    };
    let rows = vec![limit(1, "grant", 30, 0), limit(2, "payment", 100, 0)];
    let plan = settle_unfunded_usage(
        ORG,
        &policy(),
        70,
        &rows,
        0,
        &vec![debt(1, 20), debt(2, 40), debt(3, 40)],
    )
    .unwrap();
    let parts: Vec<(u128, &str, i64)> = plan
        .inserts
        .iter()
        .map(|i| {
            (
                i.service_usage_id.unwrap().value,
                i.credit_type.as_str(),
                i.amount,
            )
        })
        .collect();
    assert_eq!(
        parts,
        [
            (1, "grant", 20),
            (2, "grant", 10),
            (2, "payment", 30),
            (3, "payment", 10)
        ]
    );
    assert_eq!(plan.settled, 70);
    assert!(matches!(
        plan.inserts[0].phase,
        AllocationPhase::OverageSettlement
    ));
    assert_eq!(complete_settlement(&plan, 1).unwrap(), 70);
    assert!(complete_settlement(&plan, 0).is_err());
    let nothing = settle_unfunded_usage(ORG, &policy(), 0, &rows, 0, &vec![debt(1, 20)]).unwrap();
    assert_eq!(nothing.settled, 0);
    assert!(nothing.inserts.is_empty());
}

#[test]
fn requests_are_checked_before_anything_is_read() {
    assert!(check_request(&request(1)).is_ok());
    assert_eq!(
        message(check_request(&request(0)).unwrap_err()),
        "adjustment amount must be positive"
    );
    let mut blank = request(1);
    blank.reason = " \n".to_string();
    assert_eq!(
        message(check_request(&blank).unwrap_err()),
        "adjustment reason and idempotency key are required"
    );
    let mut long = request(1);
    long.idempotency_key = "k".repeat(101);
    assert_eq!(
        message(check_request(&long).unwrap_err()),
        "adjustment idempotency key must not exceed 100 characters"
    );
}

#[test]
fn a_repeated_adjustment_is_answered_with_the_first() {
    assert_eq!(replay(adjustment(3), &request(3)).unwrap().amount, 3);
    assert_eq!(
        message(replay(adjustment(3), &request(4)).unwrap_err()),
        "adjustment idempotency key already exists with different data"
    );
    let outcome = create(
        &request(3),
        true,
        Some(adjustment(3)),
        None,
        PriorAdjustments {
            amount: 0,
            unfunded: 0,
        },
        &Vec::new(),
    )
    .unwrap();
    assert!(matches!(outcome, AdjustmentOutcome::Replayed(_)));
}

#[test]
fn adjustments_divide_between_open_and_funded_parts() {
    let none = PriorAdjustments {
        amount: 0,
        unfunded: 0,
    };
    let charge = Some(UsageCharge {
        total_cost: 100,
        unfunded_amount: Some(30),
    });
    let split = split_adjustment(CreditAdjustmentKind::Correction, 50, charge, none).unwrap();
    assert_eq!(split.unfunded_reversed, 30);
    assert_eq!(split.funded_to_reverse, 20);
    let after = PriorAdjustments {
        amount: 50,
        unfunded: 30,
    };
    let split = split_adjustment(CreditAdjustmentKind::Correction, 50, charge, after).unwrap();
    assert_eq!(split.unfunded_reversed, 0);
    assert_eq!(split.funded_to_reverse, 50);
    for (kind, amount, charge, expected) in [
        (
            CreditAdjustmentKind::Correction,
            101,
            charge,
            "adjustment exceeds the remaining effective usage cost",
        ),
        (
            CreditAdjustmentKind::Writeoff,
            31,
            charge,
            "write-off exceeds unresolved unfunded usage",
        ),
        (
            CreditAdjustmentKind::Correction,
            1,
            None,
            "usage charge not found",
        ),
        (
            CreditAdjustmentKind::Correction,
            1,
            Some(UsageCharge {
                total_cost: 100,
                unfunded_amount: None,
            }),
            "legacy usage with unknown funding cannot be adjusted",
        ),
    ] {
        assert_eq!(
            message(split_adjustment(kind, amount, charge, none).unwrap_err()),
            expected
        );
    }
}

#[test]
fn allocations_are_taken_back_as_far_as_they_go() {
    let open = vec![
        OpenAllocation {
            id: Uuid { value: 1 },
            available: 10,
        },
        OpenAllocation {
            id: Uuid { value: 2 },
            available: 0,
        },
        OpenAllocation {
            id: Uuid { value: 3 },
            available: 10,
        },
    ];
    let reversals = reverse_allocations(&open, 15).unwrap();
    let parts: Vec<(u128, i64)> = reversals
        .iter()
        .map(|r| (r.allocation_id.value, r.amount))
        .collect();
    assert_eq!(parts, [(1, 10), (3, 5)]);
    assert_eq!(
        message(reverse_allocations(&open, 21).unwrap_err()),
        "adjustment does not reconcile with remaining funding"
    );
    let plan = plan_adjustment(
        CreditAdjustmentKind::Correction,
        25,
        Some(UsageCharge {
            total_cost: 100,
            unfunded_amount: Some(10),
        }),
        PriorAdjustments {
            amount: 0,
            unfunded: 0,
        },
        &open,
    )
    .unwrap();
    assert_eq!(plan.unfunded_reversed, 10);
    assert_eq!(plan.reversals.len(), 2);
    assert!(check_balance_update(1).is_ok());
    assert!(check_balance_update(0).is_err());
    assert_eq!(
        message(lock_organization_accounting(ORG, false).unwrap_err()),
        format!("Active organization not found: {}", ORG.to_text())
    );
}

#[test]
fn stored_adjustments_are_read_back() {
    let row = CreditAdjustmentRow {
        id: Uuid { value: 1 },
        organization_id: ORG,
        inference_usage_id: None,
        service_usage_id: Some(Uuid { value: 8 }),
        adjustment_type: "writeoff".to_string(),
        amount: 4,
        unfunded_amount_reversed: 4,
        reason: "r".to_string(),
        idempotency_key: "k".to_string(),
        changed_by_user_id: None,
        changed_by_user_email: None,
        created_at: NOW,
    };
    let read = load_adjustment(row.clone(), Vec::new()).unwrap();
    assert_eq!(read.usage_id, Uuid { value: 8 });
    assert!(matches!(read.usage_kind, AdjustedUsageKind::Service));
    assert!(matches!(
        read.adjustment_kind,
        CreditAdjustmentKind::Writeoff
    ));
    let mut odd = row.clone();
    odd.adjustment_type = "gift".to_string();
    assert_eq!(
        message(load_adjustment(odd, Vec::new()).unwrap_err()),
        "stored adjustment type is invalid"
    );
    let mut orphan = row;
    orphan.service_usage_id = None;
    assert_eq!(
        message(load_adjustment(orphan, Vec::new()).unwrap_err()),
        "stored adjustment parent is invalid"
    );
}

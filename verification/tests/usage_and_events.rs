use database::error::RepositoryError;
use database::ids::Uuid;
use database::repositories::admin_composite::{
    advance, concurrent_limit_column, email_sent_at, get_organization_concurrent_limit,
    insert_scheduled_pricing_changes, is_open_conflict, row_to_scheduled_pricing_change,
    update_organization_concurrent_limit, BatchAction, BatchEvent, BatchState, ChangeCommand,
    ChangeProgress, DeliveryStatus, PriceSet, ScheduledPricingChangeInsert,
    ScheduledPricingChangeRow, ScheduledPricingChangeStatus,
};
use database::repositories::credit_allocation::{CreditAllocation, UsageAllocationParent};
use database::repositories::credit_event::{
    claim_code, generate_codes, map_error, ClaimAction, ClaimEvent, CreditEventError,
};
use database::repositories::feature_request::{
    list_admin, vote_targets, FeatureRequestRow, FeatureRequestTarget, FeatureRequestVoteRow,
    FeatureRequestVoteSummary,
};
use database::repositories::organization_service_usage::{
    check_reporting_range, effective_funding, record_usage, row_to_log, RecordAction, RecordEvent,
    RecordServiceUsageRequest, ServiceUsageRow,
};
use database::repositories::organization_service_usage_reporting_summary::{
    summarize_service_usage, SummaryRow,
};
use database::time::Timestamp;

const NOW: Timestamp = Timestamp {
    seconds: 1_700_000_000,
    nanos: 0,
};

fn usage_request() -> RecordServiceUsageRequest {
    RecordServiceUsageRequest {
        organization_id: Uuid { value: 1 },
        workspace_id: Uuid { value: 2 },
        api_key_id: Uuid { value: 3 },
        service_id: Uuid { value: 4 },
        quantity: 5,
        total_cost: 60,
        inference_id: Some(Uuid { value: 7 }),
    }
}

fn usage_row() -> ServiceUsageRow {
    ServiceUsageRow {
        id: Uuid { value: 9 },
        organization_id: Uuid { value: 1 },
        workspace_id: Uuid { value: 2 },
        api_key_id: Uuid { value: 3 },
        service_id: Uuid { value: 4 },
        quantity: 5,
        total_cost: 60,
        effective_total_cost: Some(50),
        inference_id: Some(Uuid { value: 7 }),
        created_at: NOW,
        funded_amount: Some(60),
        allocation_policy_version: Some("v1".to_string()),
    }
}

fn allocation(amount: i64) -> CreditAllocation {
    CreditAllocation {
        credit_type: "grant".to_string(),
        amount,
        source: None,
        organization_limit_id: None,
        policy_version: "v1".to_string(),
    }
}

#[test]
fn usage_of_one_inference_is_charged_once() {
    let request = usage_request();
    assert!(matches!(
        record_usage(&request, &RecordEvent::Locked),
        Ok(RecordAction::Insert)
    ));
    assert!(matches!(
        record_usage(&request, &RecordEvent::Inserted(Uuid { value: 9 })),
        Ok(RecordAction::Allocate { parent: UsageAllocationParent::Service(id), cost: 60 })
            if id == Uuid { value: 9 }
    ));
    assert!(matches!(
        record_usage(&request, &RecordEvent::Duplicate),
        Ok(RecordAction::RollBackAndRead { .. })
    ));
    assert!(matches!(
        record_usage(&request, &RecordEvent::Existing(usage_row())),
        Ok(RecordAction::LoadAllocations(_))
    ));
    let mut unfunded = usage_row();
    unfunded.funded_amount = None;
    assert!(matches!(
        record_usage(&request, &RecordEvent::Existing(unfunded)),
        Ok(RecordAction::ReportExisting)
    ));
    let mut other = usage_row();
    other.quantity = 6;
    assert!(matches!(
        record_usage(&request, &RecordEvent::Existing(other)),
        Err(RepositoryError::ValidationFailed(m))
            if m == "service usage id already exists with different billable data"
    ));
}

#[test]
fn funding_is_what_is_allocated() {
    let allocations = Some(vec![allocation(20), allocation(15)]);
    assert_eq!(
        effective_funding(Some(1), &allocations, 50),
        (Some(35), Some(15))
    );
    assert_eq!(effective_funding(None, &allocations, 50), (None, None));
    assert_eq!(effective_funding(Some(1), &None, 50), (Some(0), Some(50)));
    let log = row_to_log(usage_row(), allocations);
    assert_eq!(log.total_cost, 50);
    assert_eq!(log.unfunded_amount, Some(15));
}

#[test]
fn reports_end_after_they_begin() {
    let later = Timestamp {
        seconds: NOW.seconds,
        nanos: 1,
    };
    assert!(check_reporting_range(Some(NOW), Some(NOW)).is_ok());
    assert!(check_reporting_range(Some(NOW), Some(later)).is_ok());
    assert_eq!(
        check_reporting_range(Some(later), Some(NOW)).unwrap_err(),
        "invalid reporting date range"
    );
    assert!(check_reporting_range(None, Some(NOW)).is_ok());
}

fn summary_row(dimension: &str, cost: i64) -> SummaryRow {
    SummaryRow {
        dimension: dimension.to_string(),
        workspace_id: None,
        api_key_id: None,
        service_name: None,
        day: None,
        usage_count: 1,
        quantity: 2,
        total_cost: cost,
    }
}

#[test]
fn grouped_usage_is_sorted_into_a_summary() {
    let mut rows = vec![summary_row("totals", 99)];
    for (id, cost) in [(5, 10), (3, 30), (4, 10)] {
        let mut row = summary_row("workspace", cost);
        row.workspace_id = Some(Uuid { value: id });
        rows.push(row);
    }
    for (name, cost) in [("b", 1), ("a", 1), ("c", 2)] {
        let mut row = summary_row("service", cost);
        row.service_name = Some(name.to_string());
        rows.push(row);
    }
    for day in ["2026-02-01", "2026-01-31"] {
        let mut row = summary_row("day", 1);
        row.day = Some(day.to_string());
        rows.push(row);
    }
    let mut key = summary_row("api_key", 1);
    key.api_key_id = Some(Uuid { value: 1 });
    rows.push(key);
    let summary = summarize_service_usage(&rows).unwrap();
    assert_eq!(summary.totals.total_cost_nano_usd, 99);
    let ids: Vec<u128> = summary
        .by_workspace
        .iter()
        .map(|w| w.workspace_id.value)
        .collect();
    assert_eq!(ids, [3, 4, 5]);
    let names: Vec<&str> = summary
        .by_service
        .iter()
        .map(|s| s.service_name.as_str())
        .collect();
    assert_eq!(names, ["c", "a", "b"]);
    assert_eq!(summary.by_day[0].day, "2026-01-31");
    assert_eq!(summary.by_api_key.len(), 1);
}

#[test]
fn rows_that_do_not_fit_are_reported() {
    let fault = |row: SummaryRow| match summarize_service_usage(&vec![row]) {
        Err(RepositoryError::DataConversionError(message)) => message,
        other => panic!("{other:?}"),
    };
    assert_eq!(fault(summary_row("workspace", 0)), "missing workspace_id");
    assert_eq!(fault(summary_row("api_key", 0)), "missing api_key_id");
    assert_eq!(fault(summary_row("service", 0)), "missing service_name");
    assert_eq!(fault(summary_row("day", 0)), "missing day");
    assert_eq!(
        fault(summary_row("hour", 0)),
        "unknown service summary dimension: hour"
    );
}

#[test]
fn codes_are_claimed_once_and_within_the_limit() {
    assert!(matches!(
        claim_code(ClaimEvent::Counted { rows_updated: 1 }),
        Ok(ClaimAction::MarkCode)
    ));
    let refused = claim_code(ClaimEvent::Counted { rows_updated: 0 }).unwrap_err();
    assert!(matches!(
        map_error(&Some(refused), ""),
        CreditEventError::MaxClaimsReached
    ));
    let claimed = claim_code(ClaimEvent::Marked(None)).unwrap_err();
    assert!(matches!(
        map_error(&Some(claimed), ""),
        CreditEventError::CodeAlreadyClaimed
    ));
    assert!(matches!(
        claim_code(ClaimEvent::Marked(Some(Uuid { value: 4 }))),
        Ok(ClaimAction::StoreClaim { credit_event_id }) if credit_event_id == Uuid { value: 4 }
    ));
    assert!(matches!(
        claim_code(ClaimEvent::Stored),
        Ok(ClaimAction::Commit)
    ));
    assert!(generate_codes(Uuid { value: 1 }, true).is_ok());
    let missing = generate_codes(Uuid { value: 0 }, false).unwrap_err();
    assert!(matches!(
        map_error(&Some(missing), ""),
        CreditEventError::NotFound(m)
            if m == "Credit event not found: 00000000-0000-0000-0000-000000000000"
    ));
    assert!(matches!(
        map_error(&Some(RepositoryError::ValidationFailed("odd".to_string())), ""),
        CreditEventError::ValidationError(m) if m == "odd"
    ));
    assert!(matches!(
        map_error(&None, "duplicate key: credit_claims_event_user_key"),
        CreditEventError::UserAlreadyClaimed
    ));
    assert!(matches!(
        map_error(&Some(RepositoryError::TransactionConflict), "conflict"),
        CreditEventError::InternalError(m) if m == "conflict"
    ));
}

#[test]
fn supporters_come_with_their_request() {
    let row = |id: u128| FeatureRequestRow {
        target: FeatureRequestTarget {
            id: Uuid { value: id },
            kind: "model".to_string(),
            key: "k".to_string(),
            title: "t".to_string(),
            status: "open".to_string(),
            created_at: NOW,
            updated_at: NOW,
        },
        unique_user_count: 2,
        unique_organization_count: 1,
        latest_requested_at: NOW,
    };
    let vote = |target: u128, user: u128| FeatureRequestVoteRow {
        target_id: Uuid { value: target },
        vote: FeatureRequestVoteSummary {
            user_id: Uuid { value: user },
            user_email: "e".to_string(),
            user_display_name: None,
            organization_id: None,
            organization_name: None,
            note: None,
            source: None,
            updated_at: NOW,
        },
    };
    let rows = vec![row(1), row(2), row(1)];
    let page = list_admin(&rows, &vec![vote(2, 10), vote(1, 11), vote(2, 12)]);
    let users: Vec<Vec<u128>> = page
        .iter()
        .map(|s| s.recent_votes.iter().map(|v| v.user_id.value).collect())
        .collect();
    assert_eq!(users, [vec![11], vec![10, 12], vec![]]);
    assert_eq!(vote_targets(&rows).unwrap().len(), 3);
    assert!(vote_targets(&Vec::new()).is_none());
}

fn progress(status: ScheduledPricingChangeStatus, apply_attempts: i32) -> ChangeProgress {
    ChangeProgress {
        status,
        apply_attempts,
        applied_at: None,
        last_error: None,
    }
}

#[test]
fn planned_changes_move_through_their_states() {
    let pending = progress(ScheduledPricingChangeStatus::Pending, 0);
    let claimed = advance(pending.clone(), ChangeCommand::Claim { is_due: true }).unwrap();
    assert!(matches!(
        claimed.status,
        ScheduledPricingChangeStatus::Applying
    ));
    assert_eq!(claimed.apply_attempts, 1);
    assert!(advance(pending.clone(), ChangeCommand::Claim { is_due: false }).is_none());
    assert!(advance(claimed.clone(), ChangeCommand::Cancel).is_none());
    let applied = advance(claimed.clone(), ChangeCommand::MarkApplied { now: NOW }).unwrap();
    assert_eq!(applied.applied_at, Some(NOW));
    assert!(advance(applied, ChangeCommand::Cancel).is_none());
    let failed = |retryable: bool| {
        advance(
            claimed.clone(),
            ChangeCommand::MarkFailed {
                error: "e".to_string(),
                retryable,
            },
        )
        .unwrap()
    };
    assert!(matches!(
        failed(true).status,
        ScheduledPricingChangeStatus::Pending
    ));
    assert!(matches!(
        failed(false).status,
        ScheduledPricingChangeStatus::Failed
    ));
    let stale = |max_attempts: i32| {
        advance(
            claimed.clone(),
            ChangeCommand::Recover {
                is_stale: true,
                max_attempts,
            },
        )
        .unwrap()
    };
    assert!(matches!(
        stale(2).status,
        ScheduledPricingChangeStatus::Pending
    ));
    assert_eq!(stale(1).last_error.as_deref(), Some("apply timed out"));
    let cancelled = advance(pending, ChangeCommand::Cancel).unwrap();
    assert!(matches!(
        cancelled.status,
        ScheduledPricingChangeStatus::Cancelled
    ));
}

fn pricing_row(model: u128, status: &str) -> ScheduledPricingChangeRow {
    let prices = PriceSet {
        input_cost_per_token: Some(1),
        output_cost_per_token: None,
        cache_read_cost_per_token: None,
        cost_per_image: None,
    };
    ScheduledPricingChangeRow {
        id: Uuid { value: 1 },
        batch_id: Uuid { value: 2 },
        model_id: Uuid { value: model },
        model_name: format!("m{model}"),
        model_display_name: "M".to_string(),
        new_prices: prices,
        old_prices: prices,
        effective_at: NOW,
        status: status.to_string(),
        apply_attempts: 0,
        applied_at: None,
        last_error: None,
        created_by_user_id: None,
        created_by_user_email: None,
        change_reason: None,
        created_at: NOW,
    }
}

fn pricing_insert(model: u128) -> ScheduledPricingChangeInsert {
    let row = pricing_row(model, "pending");
    ScheduledPricingChangeInsert {
        model_id: row.model_id,
        model_name: row.model_name,
        model_display_name: row.model_display_name,
        new_prices: row.new_prices,
        old_prices: row.old_prices,
        effective_at: row.effective_at,
    }
}

#[test]
fn a_batch_is_stored_whole_and_once() {
    let changes = vec![pricing_insert(3), pricing_insert(4)];
    let step = |state, event| insert_scheduled_pricing_changes(&changes, state, event);
    let (state, action) = step(BatchState::ReadingBatch, BatchEvent::BatchRead(Vec::new()));
    assert!(matches!(action, BatchAction::Store { position: 0 }));
    let (state, action) = step(state, BatchEvent::ChangeStored(pricing_row(3, "pending")));
    assert!(matches!(action, BatchAction::Store { position: 1 }));
    let (committing, action) = step(
        state.clone(),
        BatchEvent::ChangeStored(pricing_row(4, "pending")),
    );
    assert!(matches!(action, BatchAction::Commit));
    let (_, action) = step(committing, BatchEvent::Committed);
    assert!(matches!(
        action,
        BatchAction::Answer(answer)
            if answer.len() == 2 && answer[0].model_name == "m3" && answer[1].model_name == "m4"
    ));

    let (_, action) = step(
        BatchState::ReadingBatch,
        BatchEvent::BatchRead(vec![pricing_row(9, "applied")]),
    );
    assert!(matches!(
        action,
        BatchAction::Answer(answer) if answer.len() == 1 && answer[0].model_name == "m9"
    ));
    let (_, action) = step(
        BatchState::ReadingBatch,
        BatchEvent::BatchRead(vec![
            pricing_row(9, "applied"),
            pricing_row(8, "one"),
            pricing_row(7, "two"),
        ]),
    );
    assert!(matches!(
        action,
        BatchAction::Unreadable { message }
            if message == "unknown scheduled pricing change status 'one'"
    ));

    let refused = |constraint: &str| {
        step(
            state.clone(),
            BatchEvent::StoreRefused {
                code: Some("23505".to_string()),
                constraint: Some(constraint.to_string()),
            },
        )
        .1
    };
    assert!(matches!(
        refused("uq_scheduled_pricing_change_open_per_model"),
        BatchAction::Conflict { model_name } if model_name == "m4"
    ));
    assert!(matches!(refused("other"), BatchAction::Fail));
    let (state, action) = insert_scheduled_pricing_changes(
        &Vec::new(),
        BatchState::ReadingBatch,
        BatchEvent::BatchRead(Vec::new()),
    );
    assert!(matches!(action, BatchAction::Commit));
    let (_, action) = insert_scheduled_pricing_changes(&Vec::new(), state, BatchEvent::Committed);
    assert!(matches!(action, BatchAction::Answer(answer) if answer.is_empty()));
}

#[test]
fn planned_changes_are_read() {
    let row = pricing_row(3, "cancelled");
    assert!(matches!(
        row_to_scheduled_pricing_change(row.clone()).unwrap().status,
        ScheduledPricingChangeStatus::Cancelled
    ));
    let mut odd = row;
    odd.status = "paused".to_string();
    assert_eq!(
        row_to_scheduled_pricing_change(odd).unwrap_err(),
        "unknown scheduled pricing change status 'paused'"
    );
    let text = |s: &str| Some(s.to_string());
    assert!(is_open_conflict(
        &text("23505"),
        &text("uq_scheduled_pricing_change_open_per_model")
    ));
    assert!(!is_open_conflict(&text("23505"), &text("other")));
    assert!(!is_open_conflict(
        &text("23503"),
        &text("uq_scheduled_pricing_change_open_per_model")
    ));
    assert!(!is_open_conflict(&None, &None));
    assert_eq!(email_sent_at(DeliveryStatus::Sent, NOW), Some(NOW));
    assert_eq!(email_sent_at(DeliveryStatus::NotSent, NOW), None);
}

#[test]
fn limits_on_requests_wrap_in_their_column() {
    assert_eq!(concurrent_limit_column(Some(7)), Some(7));
    assert_eq!(concurrent_limit_column(None), None);
    for value in [0x8000_0000_u32, u32::MAX, 3_000_000_000] {
        assert_eq!(concurrent_limit_column(Some(value)), Some(value as i32));
    }
    let id = Uuid { value: 0 };
    assert_eq!(
        get_organization_concurrent_limit(id, Some(Some(7))),
        Ok(Some(7))
    );
    assert_eq!(
        get_organization_concurrent_limit(id, Some(Some(-1))),
        Ok(None)
    );
    assert_eq!(
        get_organization_concurrent_limit(id, Some(Some(0))),
        Ok(None)
    );
    assert_eq!(get_organization_concurrent_limit(id, Some(None)), Ok(None));
    let missing = "Organization not found or inactive: 00000000-0000-0000-0000-000000000000";
    assert_eq!(
        get_organization_concurrent_limit(id, None),
        Err(missing.to_string())
    );
    assert_eq!(
        update_organization_concurrent_limit(id, 0),
        Err(missing.to_string())
    );
    assert_eq!(update_organization_concurrent_limit(id, 1), Ok(()));
}

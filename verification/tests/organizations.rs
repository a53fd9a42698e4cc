use database::error::RepositoryError;
use database::ids::Uuid;
use database::models::{
    InvitationStatus, Organization, OrganizationLimitsHistory, OrganizationRole,
};
use database::repositories::admission_snapshot::{
    complete_key, load_key, load_organization, timeout_setting, AdmissionRow, KeyRow, KeyStep,
};
use database::repositories::concurrency_lease::{
    effective_limit, lock_key, persist_columns, try_acquire, HeldLease, LeaseOutcome,
};
use database::repositories::organization::{
    add_member, create, db_to_domain_organization, list_organizations_by_user, map_db_error,
    row_to_db_org_member, DbFailure, OrganizationMemberRow, OrganizationOrderDirection, SqlFailure,
};
use database::repositories::organization_invitation::{
    create as invite, email_status_filter, generate_token, record_email, row_to_db_invitation,
    status_filter, token_from_choices, CreateInvitationRequest, EmailOutcome, InvitationEmailStatus,
    InvitationRow,
};
use database::repositories::organization_limits::{
    credit_status, get_current_limit_breakdown, get_current_limits, update_limits,
};
use database::time::Timestamp;
use tokio_postgres::error::SqlState;

const NOW: Timestamp = Timestamp {
    seconds: 1_700_000_000,
    nanos: 7,
};

fn failure(code: &str) -> RepositoryError {
    map_db_error(DbFailure {
        is_closed: false,
        sql: Some(SqlFailure {
            code: code.to_string(),
            message: "m".to_string(),
        }),
        text: "t".to_string(),
    })
}

#[test]
fn failures_are_told_apart_by_their_codes() {
    assert!(matches!(failure("23505"), RepositoryError::AlreadyExists));
    assert!(matches!(failure("23503"), RepositoryError::ForeignKeyViolation(m) if m == "m"));
    assert!(matches!(failure("23502"), RepositoryError::RequiredFieldMissing(_)));
    assert!(matches!(failure("23514"), RepositoryError::ValidationFailed(_)));
    assert!(matches!(failure("23001"), RepositoryError::DependencyExists(_)));
    assert!(matches!(failure("40001"), RepositoryError::TransactionConflict));
    assert!(matches!(failure("40P01"), RepositoryError::TransactionConflict));
    assert!(matches!(failure("28P01"), RepositoryError::AuthenticationFailed));
    assert!(matches!(failure("28000"), RepositoryError::AuthenticationFailed));
    for code in ["08000", "08003", "08006"] {
        assert!(matches!(failure(code), RepositoryError::ConnectionFailed(_)));
    }
    assert!(matches!(
        failure("42601"),
        RepositoryError::DatabaseError(m) if m == "Database error (42601): m"
    ));
    assert!(matches!(
        map_db_error(DbFailure { is_closed: true, sql: None, text: "t".to_string() }),
        RepositoryError::ConnectionFailed(m) if m == "Connection closed"
    ));
    assert!(matches!(
        map_db_error(DbFailure { is_closed: false, sql: None, text: "t".to_string() }),
        RepositoryError::DatabaseError(m) if m == "t"
    ));
}

#[test]
fn codes_are_those_of_the_database_driver() {
    for (state, code) in [
        (SqlState::UNIQUE_VIOLATION, "23505"),
        (SqlState::FOREIGN_KEY_VIOLATION, "23503"),
        (SqlState::NOT_NULL_VIOLATION, "23502"),
        (SqlState::CHECK_VIOLATION, "23514"),
        (SqlState::RESTRICT_VIOLATION, "23001"),
        (SqlState::T_R_SERIALIZATION_FAILURE, "40001"),
        (SqlState::T_R_DEADLOCK_DETECTED, "40P01"),
        (SqlState::INVALID_PASSWORD, "28P01"),
        (SqlState::INVALID_AUTHORIZATION_SPECIFICATION, "28000"),
        (SqlState::CONNECTION_EXCEPTION, "08000"),
        (SqlState::CONNECTION_DOES_NOT_EXIST, "08003"),
        (SqlState::CONNECTION_FAILURE, "08006"),
    ] {
        assert_eq!(state.code(), code);
    }
}

#[test]
fn members_and_owners_are_read() {
    let row = |role: &str| OrganizationMemberRow {
        id: Uuid { value: 1 },
        organization_id: Uuid { value: 2 },
        user_id: Uuid { value: 3 },
        role: role.to_string(),
        joined_at: NOW,
        invited_by: None,
    };
    assert!(matches!(
        row_to_db_org_member(row("admin")).unwrap().role,
        OrganizationRole::Admin
    ));
    assert_eq!(
        row_to_db_org_member(row("Owner")).unwrap_err(),
        "Invalid role: Owner"
    );
    let organization = Organization {
        id: Uuid { value: 0 },
        name: "org".to_string(),
        display_name: "Org".to_string(),
        description: None,
        created_at: NOW,
        updated_at: NOW,
        is_active: true,
        rate_limit: None,
        settings: None,
    };
    let owned =
        db_to_domain_organization(organization.clone(), Some(Uuid { value: 3 })).unwrap();
    assert_eq!(owned.settings, "null");
    assert_eq!(owned.owner_id, Uuid { value: 3 });
    assert_eq!(
        db_to_domain_organization(organization, None).unwrap_err(),
        "Organization has no owner: 00000000-0000-0000-0000-000000000000"
    );
    assert!(matches!(add_member(true), Err(RepositoryError::AlreadyExists)));
    assert!(add_member(false).is_ok());
    assert_eq!(create("n".to_string(), None, None).display_name, "n");
    assert_eq!(
        create("n".to_string(), Some("N".to_string()), None).display_name,
        "N"
    );
    assert!(list_organizations_by_user(None, None).contains("o.created_at ASC"));
    assert!(
        list_organizations_by_user(None, Some(OrganizationOrderDirection::Desc))
            .ends_with("ORDER BY o.created_at DESC LIMIT $2 OFFSET $3")
    );
}

#[test]
fn tokens_are_drawn_from_the_character_set() {
    assert_eq!(token_from_choices(&vec![0, 25, 26, 51, 52, 61]), "azAZ09");
    let token = generate_token();
    assert_eq!(token.len(), 64);
    assert!(token.chars().all(|c| c.is_ascii_alphanumeric()));
    assert_ne!(token, generate_token());
}

#[test]
fn invitations_lapse_and_are_read_back() {
    let invitation = invite(
        Uuid { value: 2 },
        CreateInvitationRequest {
            email: "a@example.com".to_string(),
            role: OrganizationRole::Member,
            expires_in_hours: 48,
        },
        Uuid { value: 3 },
        "token".to_string(),
        NOW,
    );
    assert_eq!(invitation.role, "member");
    assert_eq!(invitation.expires_at.seconds, NOW.seconds + 172_800);
    assert_eq!(invitation.expires_at.nanos, 7);
    let row = InvitationRow {
        id: Uuid { value: 1 },
        organization_id: Uuid { value: 2 },
        email: "a@example.com".to_string(),
        role: "owner".to_string(),
        invited_by_user_id: Uuid { value: 3 },
        status: "declined".to_string(),
        token: "token".to_string(),
        created_at: NOW,
        expires_at: NOW,
        responded_at: None,
        email_status: "not_attempted".to_string(),
        email_sent_at: None,
        email_last_error: None,
        email_message_id: None,
    };
    let read = row_to_db_invitation(row.clone()).unwrap();
    assert!(matches!(read.status, InvitationStatus::Declined));
    assert!(matches!(
        read.email_status,
        InvitationEmailStatus::NotAttempted
    ));
    let mut odd = row.clone();
    odd.email_status = "lost".to_string();
    assert_eq!(
        row_to_db_invitation(odd.clone()).unwrap_err(),
        "unknown variant `lost`, expected one of `not_attempted`, `sent`, `failed`, `skipped`"
    );
    odd.status = "gone".to_string();
    assert_eq!(
        row_to_db_invitation(odd.clone()).unwrap_err(),
        "unknown variant `gone`, expected one of `pending`, `accepted`, `declined`, `expired`"
    );
    odd.role = "king".to_string();
    assert_eq!(
        row_to_db_invitation(odd).unwrap_err(),
        "unknown variant `king`, expected one of `owner`, `admin`, `member`"
    );
    assert_eq!(status_filter(Some(InvitationStatus::Expired)), Some("expired"));
    assert_eq!(status_filter(None), None);
    assert_eq!(email_status_filter(Some(InvitationEmailStatus::Sent)), Some("sent"));
    assert_eq!(email_status_filter(None), None);
}

#[test]
fn messages_leave_nothing_of_earlier_attempts() {
    let sent = record_email(
        EmailOutcome::Sent {
            message_id: Some("id".to_string()),
        },
        NOW,
    );
    assert_eq!(sent.email_sent_at, Some(NOW));
    assert_eq!(sent.email_last_error, None);
    let failed = record_email(
        EmailOutcome::Failed {
            error: "e".to_string(),
        },
        NOW,
    );
    assert_eq!(failed.email_sent_at, None);
    assert_eq!(failed.email_message_id, None);
    assert_eq!(failed.email_last_error.as_deref(), Some("e"));
    assert!(matches!(
        record_email(EmailOutcome::Skipped, NOW).email_status,
        InvitationEmailStatus::Skipped
    ));
}

fn history(credit_type: &str, spend_limit: i64) -> OrganizationLimitsHistory {
    OrganizationLimitsHistory {
        id: Uuid { value: 1 },
        organization_id: Uuid { value: 2 },
        spend_limit,
        credit_type: credit_type.to_string(),
        source: None,
        currency: "USD".to_string(),
        effective_from: NOW,
        effective_until: None,
        changed_by: None,
        change_reason: None,
        changed_by_user_id: None,
        changed_by_user_email: None,
        created_at: NOW,
    }
}

#[test]
fn limits_add_up_less_what_was_never_attributed() {
    let statuses = vec![
        credit_status(history("grant", 100), 130),
        credit_status(history("payment", 100), 40),
    ];
    assert_eq!(statuses[0].available, 0);
    assert_eq!(statuses[1].available, 60);
    let limit = get_current_limits(&statuses, 5, 10).unwrap();
    assert_eq!(limit.spend_limit, 200);
    assert_eq!(limit.available, 50);
    assert_eq!(limit.unfunded, 5);
    assert_eq!(get_current_limits(&statuses, 5, 100).unwrap().available, 0);
    assert!(get_current_limits(&Vec::new(), 5, 10).is_none());
    let both = get_current_limit_breakdown(&statuses, 10);
    assert_eq!(both[1].consumed, 40);
    let single = get_current_limit_breakdown(&vec![statuses[1].clone()], 10);
    assert_eq!(single[0].consumed, 50);
    assert_eq!(single[0].available, 50);
    assert!(update_limits(Uuid { value: 1 }, true).is_ok());
    assert!(matches!(
        update_limits(Uuid { value: 0 }, false),
        Err(RepositoryError::NotFound(m))
            if m == "Organization not found: 00000000-0000-0000-0000-000000000000"
    ));
}

#[test]
fn snapshots_describe_limits_and_keys() {
    let row = AdmissionRow {
        admission_revision: 3,
        total_spent: Some(9),
        unresolved_unfunded_amount: Some(4),
        legacy_unattributed_amount: Some(10),
        spend_limit: Some(100),
        consumed: 30,
    };
    let snapshot = load_organization(Uuid { value: 1 }, &vec![row, row]).unwrap();
    let limit = snapshot.limit.unwrap();
    assert_eq!(limit.spend_limit, 200);
    assert_eq!(limit.available, 130);
    assert_eq!(limit.unfunded, 4);
    let mut none = row;
    none.spend_limit = None;
    assert!(load_organization(Uuid { value: 1 }, &vec![none])
        .unwrap()
        .limit
        .is_none());
    assert_eq!(
        load_organization(Uuid { value: 0 }, &Vec::new()).unwrap_err(),
        "organization not found: 00000000-0000-0000-0000-000000000000"
    );
    let key = KeyRow {
        organization_id: Uuid { value: 1 },
        api_key_id: Uuid { value: 2 },
        admission_revision: 3,
        spend_limit: Some(50),
        counters_ready: true,
        inference_spent: 20,
    };
    assert!(matches!(
        load_key(Uuid { value: 2 }, Some(key)),
        Ok(KeyStep::Done(snapshot)) if snapshot.inference_spent == 20
    ));
    let mut cold = key;
    cold.counters_ready = false;
    assert!(matches!(
        load_key(Uuid { value: 2 }, Some(cold)),
        Ok(KeyStep::SumUsage(_))
    ));
    assert_eq!(complete_key(cold, 33).inference_spent, 33);
    assert!(load_key(Uuid { value: 2 }, None).is_err());
    assert_eq!(timeout_setting(250), "250ms");
}

#[test]
fn requests_are_admitted_below_the_limit() {
    assert_eq!(effective_limit(Some(5), 64), 5);
    assert_eq!(effective_limit(Some(0), 64), 64);
    assert_eq!(effective_limit(None, 64), 64);
    assert_eq!(
        try_acquire(Some(2), 64, 1),
        LeaseOutcome::Admitted { limit: 2 }
    );
    assert_eq!(
        try_acquire(Some(2), 64, 2),
        LeaseOutcome::AtLimit {
            limit: 2,
            in_flight: 2
        }
    );
    assert_eq!(
        lock_key(Uuid { value: 0 }, Uuid { value: 1 }),
        "00000000-0000-0000-0000-000000000000:00000000-0000-0000-0000-000000000001"
    );
    assert!(persist_columns(&Vec::new()).is_none());
    let columns = persist_columns(&vec![HeldLease {
        id: Uuid { value: 1 },
        organization_id: Uuid { value: 2 },
        model_id: Uuid { value: 3 },
    }])
    .unwrap();
    assert_eq!(columns.model_ids, [Uuid { value: 3 }]);
}

use database::error::RepositoryError;
use database::ids::Uuid;
use database::models::{
    CreateMcpConnectorRequest, McpAuthType, McpConnectionStatus, Model, UpdateMcpConnectorRequest,
    UpdateModelPricingRequest,
};
use database::repositories::file::{
    create as store_file, delete as delete_file, existing_file, list_range, list_with_pagination,
    CreateStep, PageParam,
};
use database::repositories::mcp_connector::{
    create as new_connector, delete as delete_connector, row_to_connector, update,
    update_connection_status, McpConnectorRow, UpdateParam,
};
use database::repositories::model::{soft_delete_model, upsert_model_pricing, UpsertStep};
use database::repositories::model_alias::{upsert_aliases_for_model, AliasStep};
use database::repositories::model_deprecation::{
    deprecate_model, model_pricing, parse_text_list, DeprecationAction, DeprecationEvent,
    DeprecationRequest, DeprecationState, ModelRef, ModelRow,
};
use database::time::Timestamp;
use serde_json::Value;

const NOW: Timestamp = Timestamp {
    seconds: 1_700_000_000,
    nanos: 0,
};

fn pricing() -> UpdateModelPricingRequest {
    UpdateModelPricingRequest {
        input_cost_per_token: Some(3),
        output_cost_per_token: None,
        cost_per_image: None,
        model_display_name: Some("Shown".to_string()),
        model_description: Some("About".to_string()),
        model_icon: None,
        context_length: Some(4096),
        verifiable: None,
        is_active: Some(false),
        owned_by: None,
        change_reason: None,
        changed_by_user_id: None,
        changed_by_user_email: None,
    }
}

fn model_row(name: &str) -> ModelRow {
    ModelRow {
        id: Uuid { value: 1 },
        model_name: name.to_string(),
        model_display_name: "Shown".to_string(),
        model_description: "About".to_string(),
        model_icon: None,
        input_cost_per_token: 1,
        output_cost_per_token: 2,
        cost_per_image: 3,
        cache_read_cost_per_token: 4,
        context_length: 5,
        verifiable: true,
        is_active: false,
        owned_by: "owner".to_string(),
        provider_type: None,
        provider_config: None,
        attestation_supported: None,
        input_modalities: Some("[\"text\", \"image\"]".to_string()),
        output_modalities: Some("{}".to_string()),
        inference_url: None,
        datacenters: None,
        hugging_face_id: None,
        quantization: None,
        max_output_length: None,
        supported_sampling_parameters: None,
        supported_features: None,
        is_ready: None,
        deprecation_date: None,
        openrouter_slug: None,
        aliases: None,
    }
}

#[test]
fn new_models_need_their_fields_and_get_defaults() {
    match upsert_model_pricing("m", false, &pricing()).unwrap() {
        UpsertStep::Insert(model) => {
            assert_eq!(model.input_cost_per_token, 3);
            assert_eq!(model.output_cost_per_token, 0);
            assert!(model.verifiable);
            assert!(!model.is_active);
        }
        UpsertStep::Update => panic!("the model is new"),
    }
    assert!(matches!(
        upsert_model_pricing("m", true, &pricing()),
        Ok(UpsertStep::Update)
    ));
    let mut request = pricing();
    request.context_length = None;
    assert_eq!(
        upsert_model_pricing("m", false, &request).unwrap_err(),
        "context_length is required for new models"
    );
    request.model_description = None;
    assert_eq!(
        upsert_model_pricing("m", false, &request).unwrap_err(),
        "model_description is required for new models"
    );
    request.model_display_name = None;
    assert_eq!(
        upsert_model_pricing("m", false, &request).unwrap_err(),
        "model_display_name is required for new models"
    );
}

#[test]
fn retiring_a_model_is_recorded_with_a_reason() {
    let model = Model {
        id: Uuid { value: 4 },
        model_name: "m".to_string(),
        model_display_name: "Shown".to_string(),
        model_description: "About".to_string(),
        model_icon: None,
        input_cost_per_token: 1,
        output_cost_per_token: 2,
        cost_per_image: 3,
        context_length: 5,
        verifiable: true,
        is_active: false,
        owned_by: "owner".to_string(),
        created_at: NOW,
        updated_at: NOW,
        aliases: Vec::new(),
    };
    let entry = soft_delete_model(&Some(model.clone()), None, None, &None).unwrap();
    assert_eq!(entry.change_reason.as_deref(), Some("Model soft deleted"));
    assert_eq!(entry.model_id, Uuid { value: 4 });
    let entry = soft_delete_model(&Some(model), Some("old".to_string()), None, &None).unwrap();
    assert_eq!(entry.change_reason.as_deref(), Some("old"));
    assert!(soft_delete_model(&None, None, None, &None).is_none());
}

#[test]
fn names_are_assigned_before_others_are_removed() {
    let steps = upsert_aliases_for_model(&vec!["a".to_string(), "b".to_string()]);
    assert_eq!(steps.len(), 2);
    assert!(matches!(&steps[0], AliasStep::Assign(names) if names == &["a", "b"]));
    assert!(matches!(&steps[1], AliasStep::RemoveOthers(names) if names == &["a", "b"]));
    let steps = upsert_aliases_for_model(&Vec::new());
    assert!(matches!(steps[..], [AliasStep::RemoveAll]));
}

#[test]
fn models_are_shown_with_defaults() {
    let shown = model_pricing(model_row("m"));
    assert_eq!(shown.provider_type, "vllm");
    assert_eq!(
        shown.input_modalities,
        Some(vec!["text".to_string(), "image".to_string()])
    );
    assert_eq!(shown.output_modalities, None);
    assert!(shown.aliases.is_empty());
    assert_eq!(parse_text_list("[1]"), None);
    assert_eq!(parse_text_list("[]"), Some(Vec::new()));
}

#[test]
fn a_model_is_replaced_step_by_step() {
    let request = DeprecationRequest {
        deprecated_model_name: "old".to_string(),
        successor_model_name: "new".to_string(),
        change_reason: None,
        changed_by_user_id: None,
        changed_by_user_email: None,
    };
    let found = |id: u128, is_active: bool| {
        Some(ModelRef {
            id: Uuid { value: id },
            is_active,
        })
    };
    let (state, action) = deprecate_model(
        &request,
        DeprecationState::ReadingModels,
        DeprecationEvent::ModelsRead {
            deprecated: found(1, true),
            successor: found(2, true),
        },
    );
    assert!(matches!(
        action,
        DeprecationAction::AddAlias { alias_name, canonical_model_id }
            if alias_name == "old" && canonical_model_id == Uuid { value: 2 }
    ));
    let (state, action) = deprecate_model(&request, state, DeprecationEvent::RowsWritten(1));
    assert!(matches!(action, DeprecationAction::CarryAliases { .. }));
    let (state, action) = deprecate_model(&request, state, DeprecationEvent::RowsWritten(3));
    assert!(matches!(action, DeprecationAction::Deactivate { .. }));
    let (state, action) = deprecate_model(
        &request,
        state,
        DeprecationEvent::ModelRead(Some(model_row("old"))),
    );
    assert!(matches!(action, DeprecationAction::CloseHistory { .. }));
    let (state, action) = deprecate_model(&request, state, DeprecationEvent::RowsWritten(1));
    assert!(matches!(
        action,
        DeprecationAction::InsertHistory(entry)
            if entry.change_reason == "Deprecated in favor of 'new'"
    ));
    let (state, action) = deprecate_model(&request, state, DeprecationEvent::RowsWritten(1));
    assert!(matches!(action, DeprecationAction::ReadModel { model_name } if model_name == "old"));
    let (state, action) = deprecate_model(
        &request,
        state,
        DeprecationEvent::ModelRead(Some(model_row("old"))),
    );
    assert!(matches!(action, DeprecationAction::ReadModel { model_name } if model_name == "new"));
    let (state, action) = deprecate_model(
        &request,
        state,
        DeprecationEvent::ModelRead(Some(model_row("new"))),
    );
    assert!(matches!(action, DeprecationAction::Commit));
    let (_, action) = deprecate_model(&request, state, DeprecationEvent::Committed);
    assert!(matches!(
        action,
        DeprecationAction::Finish(outcome) if outcome.aliases_carried == 3
    ));
    let (_, action) = deprecate_model(
        &request,
        DeprecationState::ReadingModels,
        DeprecationEvent::ModelsRead {
            deprecated: None,
            successor: found(2, true),
        },
    );
    assert!(matches!(action, DeprecationAction::GiveUp));
}

#[test]
fn pages_of_files_are_queried_with_their_values() {
    let workspace = Uuid { value: 1 };
    let after = Uuid { value: 2 };
    let query = list_with_pagination(workspace, Some(after), 20, "asc", Some("vision".to_string()));
    assert_eq!(
        query.sql,
        "SELECT f.* FROM files f WHERE f.workspace_id = $1 AND f.purpose = $2 AND f.created_at > (SELECT created_at FROM files WHERE id = $3) ORDER BY f.created_at ASC LIMIT $4"
    );
    assert!(matches!(
        &query.params[..],
        [PageParam::Id(w), PageParam::Text(p), PageParam::Id(a), PageParam::Count(20)]
            if *w == workspace && p == "vision" && *a == after
    ));
    let query = list_with_pagination(workspace, None, 20, "newest", None);
    assert_eq!(
        query.sql,
        "SELECT * FROM files WHERE workspace_id = $1 ORDER BY created_at DESC LIMIT $2"
    );
    assert_eq!(query.params.len(), 2);
    assert!(list_with_pagination(workspace, Some(after), 20, "desc", None)
        .sql
        .contains("f.created_at < (SELECT"));
    assert!(
        list_with_pagination(workspace, None, 20, "ASC", Some("x".to_string()))
            .sql
            .ends_with("purpose = $2 ORDER BY created_at DESC LIMIT $3")
    );
    assert_eq!(list_range(None, None), (100, 0));
    assert_eq!(list_range(Some(5), Some(6)), (5, 6));
    assert!(delete_file(1));
    assert!(!delete_file(0));
}

#[test]
fn a_lost_answer_does_not_store_a_file_twice() {
    assert!(matches!(store_file(Ok(())), Ok(CreateStep::Stored)));
    assert!(matches!(
        store_file(Err(RepositoryError::AlreadyExists)),
        Ok(CreateStep::ReadExisting)
    ));
    assert!(matches!(
        store_file(Err(RepositoryError::TransactionConflict)),
        Err(RepositoryError::TransactionConflict)
    ));
    let id = Uuid { value: 255 };
    assert!(matches!(
        existing_file(id, None),
        Err(RepositoryError::DatabaseError(message))
            if message == "File 00000000-0000-0000-0000-0000000000ff was reported as existing but not found"
    ));
}

#[test]
fn connectors_change_only_what_is_asked() {
    let id = Uuid { value: 8 };
    let request = UpdateMcpConnectorRequest {
        name: Some("n".to_string()),
        description: None,
        mcp_server_url: None,
        auth_type: Some(McpAuthType::Bearer),
        bearer_token: Some("s\"ecret".to_string()),
        is_active: Some(false),
    };
    let statement = update(id, &request, NOW);
    assert_eq!(
        statement.sql,
        "UPDATE mcp_connectors SET updated_at = $1, name = $2, auth_type = $3, auth_config = $4, is_active = $5 WHERE id = $6 RETURNING *"
    );
    assert!(matches!(
        &statement.params[..],
        [
            UpdateParam::Now(_),
            UpdateParam::Text(name),
            UpdateParam::Text(auth),
            UpdateParam::Json(config),
            UpdateParam::Flag(false),
            UpdateParam::Id(last)
        ] if name == "n" && auth == "bearer" && *last == id
            && serde_json::from_str::<Value>(config).unwrap()["token"] == "s\"ecret"
    ));
    let nothing = UpdateMcpConnectorRequest {
        name: None,
        description: None,
        mcp_server_url: None,
        auth_type: None,
        bearer_token: None,
        is_active: None,
    };
    assert_eq!(
        update(id, &nothing, NOW).sql,
        "UPDATE mcp_connectors SET updated_at = $1 WHERE id = $2 RETURNING *"
    );
    let created = new_connector(&CreateMcpConnectorRequest {
        name: "n".to_string(),
        description: None,
        mcp_server_url: "u".to_string(),
        auth_type: McpAuthType::NoAuth,
        bearer_token: None,
    });
    assert_eq!(created, None);
    assert!(delete_connector(1).is_ok());
    assert_eq!(
        delete_connector(0).unwrap_err(),
        "MCP connector not found"
    );
    let change = update_connection_status(McpConnectionStatus::Connected, NOW);
    assert_eq!(change.status, "connected");
    assert_eq!(change.last_connected_at, Some(NOW));
    assert_eq!(
        update_connection_status(McpConnectionStatus::Failed, NOW).last_connected_at,
        None
    );
}

#[test]
fn stored_connectors_are_read() {
    let row = McpConnectorRow {
        id: Uuid { value: 8 },
        organization_id: Uuid { value: 9 },
        name: "n".to_string(),
        description: None,
        mcp_server_url: "u".to_string(),
        auth_type: "none".to_string(),
        auth_config: None,
        is_active: true,
        created_by: Uuid { value: 10 },
        created_at: NOW,
        updated_at: NOW,
        last_connected_at: None,
        connection_status: "strange".to_string(),
        error_message: None,
        capabilities: None,
        metadata: None,
    };
    let connector = row_to_connector(row.clone()).unwrap();
    assert!(matches!(connector.auth_type, McpAuthType::NoAuth));
    assert!(matches!(
        connector.connection_status,
        McpConnectionStatus::Pending
    ));
    let mut odd = row;
    odd.auth_type = "magic".to_string();
    assert_eq!(
        row_to_connector(odd).unwrap_err(),
        "Invalid auth type: magic"
    );
}

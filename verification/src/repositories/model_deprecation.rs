//! Replacing a model by a successor.
//!
//! The name of the deprecated model becomes an alias of its successor, its
//! active aliases move to the successor, and the model is switched off, all in
//! one transaction. The steps are decided here one at a time: each takes what
//! the last statement gave back and says which statement comes next.
use crate::ids::Uuid;
use crate::json::{parse, Json};
use crate::time::Timestamp;
use vstd::prelude::*;
use vstd::string::StringExecFns;

verus! {

/// A request to replace a model.
#[derive(Debug, Clone)]
pub struct DeprecationRequest {
    pub deprecated_model_name: String,
    pub successor_model_name: String,
    pub change_reason: Option<String>,
    pub changed_by_user_id: Option<Uuid>,
    pub changed_by_user_email: Option<String>,
}

/// A model as far as the first step needs it.
#[derive(Debug, Clone, Copy, PartialEq, Eq, Structural)]
pub struct ModelRef {
    pub id: Uuid,
    pub is_active: bool,
}

/// A model as it is stored. What is absent is absent in the row, or was added
/// to the table later.
#[derive(Debug, Clone)]
pub struct ModelRow {
    pub id: Uuid,
    pub model_name: String,
    pub model_display_name: String,
    pub model_description: String,
    pub model_icon: Option<String>,
    pub input_cost_per_token: i64,
    pub output_cost_per_token: i64,
    pub cost_per_image: i64,
    pub cache_read_cost_per_token: i64,
    pub context_length: i32,
    pub verifiable: bool,
    pub is_active: bool,
    pub owned_by: String,
    pub provider_type: Option<String>,
    pub provider_config: Option<String>,
    pub attestation_supported: Option<bool>,
    pub input_modalities: Option<String>,
    pub output_modalities: Option<String>,
    pub inference_url: Option<String>,
    pub datacenters: Option<Vec<String>>,
    pub hugging_face_id: Option<String>,
    pub quantization: Option<String>,
    pub max_output_length: Option<i32>,
    pub supported_sampling_parameters: Option<Vec<String>>,
    pub supported_features: Option<Vec<String>>,
    pub is_ready: Option<bool>,
    pub deprecation_date: Option<Timestamp>,
    pub openrouter_slug: Option<String>,
    pub aliases: Option<Vec<String>>,
}

/// A model with its prices, as administrators see it.
#[derive(Debug, Clone)]
pub struct ModelPricing {
    pub model_display_name: String,
    pub model_description: String,
    pub model_icon: Option<String>,
    pub input_cost_per_token: i64,
    pub output_cost_per_token: i64,
    pub cost_per_image: i64,
    pub cache_read_cost_per_token: i64,
    pub context_length: i32,
    pub verifiable: bool,
    pub is_active: bool,
    pub aliases: Vec<String>,
    pub owned_by: String,
    pub provider_type: String,
    pub provider_config: Option<String>,
    pub attestation_supported: bool,
    pub input_modalities: Option<Vec<String>>,
    pub output_modalities: Option<Vec<String>>,
    pub inference_url: Option<String>,
    pub hugging_face_id: Option<String>,
    pub quantization: Option<String>,
    pub max_output_length: Option<i32>,
    pub supported_sampling_parameters: Vec<String>,
    pub supported_features: Vec<String>,
    pub datacenters: Option<Vec<String>>,
    pub is_ready: Option<bool>,
    pub deprecation_date: Option<Timestamp>,
    pub openrouter_slug: Option<String>,
}

/// The texts that JSON texts write, where each writes one.
pub open spec fn texts_of(items: Seq<Seq<char>>) -> Option<Seq<Seq<char>>>
    decreases items.len(),
{
    if items.len() == 0 {
        Some(seq![])
    } else {
        match (texts_of(items.drop_last()), crate::json::parsed_json(items.last())) {
            (Some(before), Some(crate::json::JsonView::Text(text))) => Some(before.push(text)),
            _ => None,
        }
    }
}

/// The list of texts that a JSON text writes, where it writes one.
pub open spec fn text_list(json: Seq<char>) -> Option<Seq<Seq<char>>> {
    match crate::json::parsed_json(json) {
        Some(crate::json::JsonView::Array(items)) => texts_of(items),
        _ => None,
    }
}

proof fn lemma_texts_of_prefix(items: Seq<Seq<char>>, n: int)
    requires
        0 <= n <= items.len(),
        texts_of(items.take(n)) is None,
    ensures
        texts_of(items) is None,
    decreases items.len(),
{
    if n < items.len() {
        assert(items.drop_last().take(n) =~= items.take(n));
        lemma_texts_of_prefix(items.drop_last(), n);
    } else {
        assert(items.take(n) =~= items);
    }
}

/// The characters of an optional list of texts.
pub open spec fn optional_list_view(list: Option<Vec<String>>) -> Option<Seq<Seq<char>>> {
    match list {
        Some(texts) => Some(crate::text::list_view(texts@)),
        None => None,
    }
}

/// Reads a JSON text as a list of texts.
pub fn parse_text_list(json: &str) -> (r: Option<Vec<String>>)
    ensures
        optional_list_view(r) == text_list(json@),
{
    match parse(json) {
        Some(Json::Array(items)) => {
            let ghost all = crate::text::list_view(items@);
            let mut texts: Vec<String> = Vec::new();
            let mut i: usize = 0;
            assert(crate::text::list_view(texts@) =~= seq![]);
            while i < items.len()
                invariant
                    i <= items@.len(),
                    all == crate::text::list_view(items@),
                    text_list(json@) == texts_of(all),
                    texts_of(all.take(i as int)) == Some(crate::text::list_view(texts@)),
                decreases items.len() - i,
            {
                proof {
                    assert(all.take(i + 1).drop_last() =~= all.take(i as int));
                    assert(all.take(i + 1).last() == items@[i as int]@);
                }
                match parse(items[i].as_str()) {
                    Some(Json::Text(text)) => {
                        let ghost before = crate::text::list_view(texts@);
                        texts.push(text);
                        proof {
                            assert(crate::text::list_view(texts@) =~= before.push(text@));
                        }
                    },
                    _ => {
                        proof {
                            lemma_texts_of_prefix(all, i + 1);
                        }
                        return None;
                    },
                }
                i = i + 1;
            }
            proof {
                assert(all.take(all.len() as int) =~= all);
            }
            Some(texts)
        },
        _ => None,
    }
}

/// The list that an optional JSON text writes.
pub open spec fn modalities_view(json: Option<String>) -> Option<Seq<Seq<char>>> {
    match json {
        Some(text) => text_list(text@),
        None => None,
    }
}

fn modalities(json: &Option<String>) -> (r: Option<Vec<String>>)
    ensures
        optional_list_view(r) == modalities_view(*json),
{
    match json {
        Some(text) => parse_text_list(text.as_str()),
        None => None,
    }
}

/// Whether `pricing` shows the model in `row`: models without a provider type
/// run on vllm, models without a mark support attestation, and missing lists
/// are empty.
pub open spec fn shows_model(pricing: ModelPricing, row: ModelRow) -> bool {
    &&& pricing.model_display_name == row.model_display_name
    &&& pricing.model_description == row.model_description
    &&& pricing.model_icon == row.model_icon
    &&& pricing.input_cost_per_token == row.input_cost_per_token
    &&& pricing.output_cost_per_token == row.output_cost_per_token
    &&& pricing.cost_per_image == row.cost_per_image
    &&& pricing.cache_read_cost_per_token == row.cache_read_cost_per_token
    &&& pricing.context_length == row.context_length
    &&& pricing.verifiable == row.verifiable
    &&& pricing.is_active == row.is_active
    &&& pricing.aliases@ == (match row.aliases {
        Some(list) => list@,
        None => seq![],
    })
    &&& pricing.owned_by == row.owned_by
    &&& pricing.provider_type@ == (match row.provider_type {
        Some(name) => name@,
        None => "vllm"@,
    })
    &&& pricing.provider_config == row.provider_config
    &&& pricing.attestation_supported == (match row.attestation_supported {
        Some(supported) => supported,
        None => true,
    })
    &&& optional_list_view(pricing.input_modalities) == modalities_view(row.input_modalities)
    &&& optional_list_view(pricing.output_modalities) == modalities_view(row.output_modalities)
    &&& pricing.inference_url == row.inference_url
    &&& pricing.hugging_face_id == row.hugging_face_id
    &&& pricing.quantization == row.quantization
    &&& pricing.max_output_length == row.max_output_length
    &&& pricing.supported_sampling_parameters@ == (match row.supported_sampling_parameters {
        Some(list) => list@,
        None => seq![],
    })
    &&& pricing.supported_features@ == (match row.supported_features {
        Some(list) => list@,
        None => seq![],
    })
    &&& pricing.datacenters == row.datacenters
    &&& pricing.is_ready == row.is_ready
    &&& pricing.deprecation_date == row.deprecation_date
    &&& pricing.openrouter_slug == row.openrouter_slug
}

fn list_or_empty(list: Option<Vec<String>>) -> (r: Vec<String>)
    ensures
        r@ == (match list {
            Some(texts) => texts@,
            None => seq![],
        }),
{
    match list {
        Some(texts) => texts,
        None => Vec::new(),
    }
}

/// Reads a stored model.
pub fn model_pricing(row: ModelRow) -> (r: ModelPricing)
    ensures
        shows_model(r, row),
{
    let input_modalities = modalities(&row.input_modalities);
    let output_modalities = modalities(&row.output_modalities);
    ModelPricing {
        model_display_name: row.model_display_name,
        model_description: row.model_description,
        model_icon: row.model_icon,
        input_cost_per_token: row.input_cost_per_token,
        output_cost_per_token: row.output_cost_per_token,
        cost_per_image: row.cost_per_image,
        cache_read_cost_per_token: row.cache_read_cost_per_token,
        context_length: row.context_length,
        verifiable: row.verifiable,
        is_active: row.is_active,
        aliases: list_or_empty(row.aliases),
        owned_by: row.owned_by,
        provider_type: match row.provider_type {
            Some(name) => name,
            None => "vllm".to_owned(),
        },
        provider_config: row.provider_config,
        attestation_supported: match row.attestation_supported {
            Some(supported) => supported,
            None => true,
        },
        input_modalities,
        output_modalities,
        inference_url: row.inference_url,
        hugging_face_id: row.hugging_face_id,
        quantization: row.quantization,
        max_output_length: row.max_output_length,
        supported_sampling_parameters: list_or_empty(row.supported_sampling_parameters),
        supported_features: list_or_empty(row.supported_features),
        datacenters: row.datacenters,
        is_ready: row.is_ready,
        deprecation_date: row.deprecation_date,
        openrouter_slug: row.openrouter_slug,
    }
}

/// A record of what a model became, and of who changed it and why.
#[derive(Debug, Clone)]
pub struct ModelHistoryInsert {
    pub model_id: Uuid,
    pub snapshot: ModelRow,
    pub changed_by_user_id: Option<Uuid>,
    pub changed_by_user_email: Option<String>,
    pub change_reason: String,
}

/// Both models after the replacement.
#[derive(Debug, Clone)]
pub struct DeprecateModelOutcome {
    pub deprecated: ModelPricing,
    pub successor: ModelPricing,
    /// How many aliases moved, as far as it fits.
    pub aliases_carried: u32,
}

/// How far a replacement has come: the statement that is being carried out.
#[derive(Debug, Clone)]
pub enum DeprecationState {
    ReadingModels,
    AddingAlias { deprecated_id: Uuid, successor_id: Uuid },
    CarryingAliases { deprecated_id: Uuid },
    Deactivating { deprecated_id: Uuid, aliases_carried: u64 },
    ClosingHistory { deprecated_id: Uuid, aliases_carried: u64, snapshot: ModelRow },
    InsertingHistory { aliases_carried: u64 },
    ReadingDeprecated { aliases_carried: u64 },
    ReadingSuccessor { aliases_carried: u64, deprecated: ModelPricing },
    Committing { outcome: DeprecateModelOutcome },
    Ended,
}

/// What a statement gave back.
#[derive(Debug, Clone)]
pub enum DeprecationEvent {
    ModelsRead { deprecated: Option<ModelRef>, successor: Option<ModelRef> },
    RowsWritten(u64),
    ModelRead(Option<ModelRow>),
    Committed,
}

/// What comes next.
#[derive(Debug, Clone)]
pub enum DeprecationAction {
    /// Makes a name an active alias of a model, whatever it was before.
    AddAlias { alias_name: String, canonical_model_id: Uuid },
    /// Moves the active aliases of a model, except the one of the name given,
    /// to another model.
    CarryAliases { from_model_id: Uuid, to_model_id: Uuid, except_alias: String },
    /// Switches a model off and reads it.
    Deactivate { model_id: Uuid },
    /// Ends the current period in the history of a model.
    CloseHistory { model_id: Uuid },
    /// Begins a new one.
    InsertHistory(ModelHistoryInsert),
    /// Reads a model with its active aliases.
    ReadModel { model_name: String },
    /// Makes the changes final.
    Commit,
    /// Ends without a result and without any change.
    GiveUp,
    /// Ends without any change, with an error.
    Fail { message: String },
    /// Ends with a result.
    Finish(DeprecateModelOutcome),
}

/// Whether an event is one that a state waits for.
pub open spec fn expects(state: DeprecationState, event: DeprecationEvent) -> bool {
    match state {
        DeprecationState::ReadingModels => event is ModelsRead,
        DeprecationState::AddingAlias { .. } => event is RowsWritten,
        DeprecationState::CarryingAliases { .. } => event is RowsWritten,
        DeprecationState::Deactivating { .. } => event is ModelRead,
        DeprecationState::ClosingHistory { .. } => event is RowsWritten,
        DeprecationState::InsertingHistory { .. } => event is RowsWritten,
        DeprecationState::ReadingDeprecated { .. } => event is ModelRead,
        DeprecationState::ReadingSuccessor { .. } => event is ModelRead,
        DeprecationState::Committing { .. } => event is Committed,
        DeprecationState::Ended => false,
    }
}

/// The reason that is recorded where none is given.
pub open spec fn default_reason(successor_model_name: Seq<char>) -> Seq<char> {
    "Deprecated in favor of '"@ + successor_model_name + "'"@
}

/// The reason that is recorded.
pub open spec fn recorded_reason(request: DeprecationRequest) -> Seq<char> {
    match request.change_reason {
        Some(reason) => reason@,
        None => default_reason(request.successor_model_name@),
    }
}

fn reason_text(request: &DeprecationRequest) -> (r: String)
    ensures
        r@ == recorded_reason(*request),
{
    match &request.change_reason {
        Some(reason) => reason.clone(),
        None => {
            let mut text = "Deprecated in favor of '".to_owned();
            text.append(request.successor_model_name.as_str());
            text.append("'");
            text
        },
    }
}

/// Whether `state` waits for the statement of `action`, with the values that
/// the request and the rows read so far call for.
pub open spec fn leads_to(
    request: DeprecationRequest,
    state: DeprecationState,
    event: DeprecationEvent,
    next: DeprecationState,
    action: DeprecationAction,
) -> bool {
    match (state, event) {
        (
            DeprecationState::ReadingModels,
            DeprecationEvent::ModelsRead { deprecated, successor },
        ) => match (deprecated, successor) {
            (Some(d), Some(s)) if s.is_active => {
                &&& next == DeprecationState::AddingAlias {
                    deprecated_id: d.id,
                    successor_id: s.id,
                }
                &&& action matches DeprecationAction::AddAlias { alias_name, canonical_model_id }
                &&& alias_name@ == request.deprecated_model_name@
                &&& canonical_model_id == s.id
            },
            _ => next == DeprecationState::Ended && action == DeprecationAction::GiveUp,
        },
        (
            DeprecationState::AddingAlias { deprecated_id, successor_id },
            DeprecationEvent::RowsWritten(_),
        ) => {
            &&& next == DeprecationState::CarryingAliases { deprecated_id }
            &&& action matches DeprecationAction::CarryAliases {
                from_model_id,
                to_model_id,
                except_alias,
            }
            &&& from_model_id == deprecated_id
            &&& to_model_id == successor_id
            &&& except_alias@ == request.deprecated_model_name@
        },
        (
            DeprecationState::CarryingAliases { deprecated_id },
            DeprecationEvent::RowsWritten(count),
        ) => {
            &&& next == DeprecationState::Deactivating { deprecated_id, aliases_carried: count }
            &&& action == DeprecationAction::Deactivate { model_id: deprecated_id }
        },
        (
            DeprecationState::Deactivating { deprecated_id, aliases_carried },
            DeprecationEvent::ModelRead(row),
        ) => match row {
            Some(snapshot) => {
                &&& next == DeprecationState::ClosingHistory {
                    deprecated_id,
                    aliases_carried,
                    snapshot,
                }
                &&& action == DeprecationAction::CloseHistory { model_id: deprecated_id }
            },
            None => next == DeprecationState::Ended && action == DeprecationAction::GiveUp,
        },
        (
            DeprecationState::ClosingHistory { deprecated_id, aliases_carried, snapshot },
            DeprecationEvent::RowsWritten(_),
        ) => {
            &&& next == DeprecationState::InsertingHistory { aliases_carried }
            &&& action matches DeprecationAction::InsertHistory(insert)
            &&& insert.model_id == deprecated_id
            &&& insert.snapshot == snapshot
            &&& insert.changed_by_user_id == request.changed_by_user_id
            &&& crate::text::optional_view(insert.changed_by_user_email)
                == crate::text::optional_view(request.changed_by_user_email)
            &&& insert.change_reason@ == recorded_reason(request)
        },
        (
            DeprecationState::InsertingHistory { aliases_carried },
            DeprecationEvent::RowsWritten(_),
        ) => {
            &&& next == DeprecationState::ReadingDeprecated { aliases_carried }
            &&& action matches DeprecationAction::ReadModel { model_name }
            &&& model_name@ == request.deprecated_model_name@
        },
        (
            DeprecationState::ReadingDeprecated { aliases_carried },
            DeprecationEvent::ModelRead(row),
        ) => match row {
            Some(found) => {
                &&& next matches DeprecationState::ReadingSuccessor {
                    aliases_carried: carried,
                    deprecated,
                }
                &&& carried == aliases_carried
                &&& shows_model(deprecated, found)
                &&& action matches DeprecationAction::ReadModel { model_name }
                &&& model_name@ == request.successor_model_name@
            },
            None => {
                &&& next == DeprecationState::Ended
                &&& action matches DeprecationAction::Fail { message }
                &&& message@
                    == "deprecated model row missing in same transaction (driver bug?)"@
            },
        },
        (
            DeprecationState::ReadingSuccessor { aliases_carried, deprecated },
            DeprecationEvent::ModelRead(row),
        ) => match row {
            Some(found) => {
                &&& next matches DeprecationState::Committing { outcome }
                &&& outcome.deprecated == deprecated
                &&& shows_model(outcome.successor, found)
                &&& outcome.aliases_carried == crate::waterfall::lesser(
                    aliases_carried as int,
                    u32::MAX as int,
                )
                &&& action == DeprecationAction::Commit
            },
            None => {
                &&& next == DeprecationState::Ended
                &&& action matches DeprecationAction::Fail { message }
                &&& message@ == "successor model row missing in same transaction (driver bug?)"@
            },
        },
        (DeprecationState::Committing { outcome }, DeprecationEvent::Committed) => {
            next == DeprecationState::Ended && action == DeprecationAction::Finish(outcome)
        },
        _ => false,
    }
}

/// Decides the next statement of a replacement.
pub fn deprecate_model(
    request: &DeprecationRequest,
    state: DeprecationState,
    event: DeprecationEvent,
) -> (r: (DeprecationState, DeprecationAction))
    requires
        expects(state, event),
    ensures
        leads_to(*request, state, event, r.0, r.1),
{
    match (state, event) {
        (
            DeprecationState::ReadingModels,
            DeprecationEvent::ModelsRead { deprecated, successor },
        ) => match (deprecated, successor) {
            (Some(d), Some(s)) if s.is_active => (
                DeprecationState::AddingAlias { deprecated_id: d.id, successor_id: s.id },
                DeprecationAction::AddAlias {
                    alias_name: request.deprecated_model_name.clone(),
                    canonical_model_id: s.id,
                },
            ),
            _ => (DeprecationState::Ended, DeprecationAction::GiveUp),
        },
        (
            DeprecationState::AddingAlias { deprecated_id, successor_id },
            DeprecationEvent::RowsWritten(_),
        ) => (
            DeprecationState::CarryingAliases { deprecated_id },
            DeprecationAction::CarryAliases {
                from_model_id: deprecated_id,
                to_model_id: successor_id,
                except_alias: request.deprecated_model_name.clone(),
            },
        ),
        (
            DeprecationState::CarryingAliases { deprecated_id },
            DeprecationEvent::RowsWritten(count),
        ) => (
            DeprecationState::Deactivating { deprecated_id, aliases_carried: count },
            DeprecationAction::Deactivate { model_id: deprecated_id },
        ),
        (
            DeprecationState::Deactivating { deprecated_id, aliases_carried },
            DeprecationEvent::ModelRead(row),
        ) => match row {
            Some(snapshot) => (
                DeprecationState::ClosingHistory { deprecated_id, aliases_carried, snapshot },
                DeprecationAction::CloseHistory { model_id: deprecated_id },
            ),
            None => (DeprecationState::Ended, DeprecationAction::GiveUp),
        },
        (
            DeprecationState::ClosingHistory { deprecated_id, aliases_carried, snapshot },
            DeprecationEvent::RowsWritten(_),
        ) => (
            DeprecationState::InsertingHistory { aliases_carried },
            DeprecationAction::InsertHistory(
                ModelHistoryInsert {
                    model_id: deprecated_id,
                    snapshot,
                    changed_by_user_id: request.changed_by_user_id,
                    changed_by_user_email: request.changed_by_user_email.clone(),
                    change_reason: reason_text(request),
                },
            ),
        ),
        (
            DeprecationState::InsertingHistory { aliases_carried },
            DeprecationEvent::RowsWritten(_),
        ) => (
            DeprecationState::ReadingDeprecated { aliases_carried },
            DeprecationAction::ReadModel { model_name: request.deprecated_model_name.clone() },
        ),
        (
            DeprecationState::ReadingDeprecated { aliases_carried },
            DeprecationEvent::ModelRead(row),
        ) => match row {
            Some(found) => (
                DeprecationState::ReadingSuccessor {
                    aliases_carried,
                    deprecated: model_pricing(found),
                },
                DeprecationAction::ReadModel { model_name: request.successor_model_name.clone() },
            ),
            None => (
                DeprecationState::Ended,
                DeprecationAction::Fail {
                    message: "deprecated model row missing in same transaction (driver bug?)".to_owned(),
                },
            ),
        },
        (
            DeprecationState::ReadingSuccessor { aliases_carried, deprecated },
            DeprecationEvent::ModelRead(row),
        ) => match row {
            Some(found) => {
                let capped: u32 = if aliases_carried > u32::MAX as u64 {
                    u32::MAX
                } else {
                    aliases_carried as u32
                };
                let outcome = DeprecateModelOutcome {
                    deprecated,
                    successor: model_pricing(found),
                    aliases_carried: capped,
                };
                (DeprecationState::Committing { outcome }, DeprecationAction::Commit)
            },
            None => (
                DeprecationState::Ended,
                DeprecationAction::Fail {
                    message: "successor model row missing in same transaction (driver bug?)".to_owned(),
                },
            ),
        },
        (DeprecationState::Committing { outcome }, DeprecationEvent::Committed) => (
            DeprecationState::Ended,
            DeprecationAction::Finish(outcome),
        ),
        _ => (DeprecationState::Ended, DeprecationAction::GiveUp),
    }
}

/// How many statements are still to come at most.
pub open spec fn statements_left(state: DeprecationState) -> nat {
    match state {
        DeprecationState::ReadingModels => 9,
        DeprecationState::AddingAlias { .. } => 8,
        DeprecationState::CarryingAliases { .. } => 7,
        DeprecationState::Deactivating { .. } => 6,
        DeprecationState::ClosingHistory { .. } => 5,
        DeprecationState::InsertingHistory { .. } => 4,
        DeprecationState::ReadingDeprecated { .. } => 3,
        DeprecationState::ReadingSuccessor { .. } => 2,
        DeprecationState::Committing { .. } => 1,
        DeprecationState::Ended => 0,
    }
}

/// Every step brings a replacement nearer to its end, and it ends exactly when
/// the action ends it.
pub proof fn law_replacement_ends(
    request: DeprecationRequest,
    state: DeprecationState,
    event: DeprecationEvent,
    next: DeprecationState,
    action: DeprecationAction,
)
    requires
        leads_to(request, state, event, next, action),
    ensures
        statements_left(next) < statements_left(state),
        next == DeprecationState::Ended <==> (action is GiveUp || action is Fail
            || action is Finish),
        action is Finish ==> state is Committing,
        action is Commit ==> state is ReadingSuccessor,
{
}

/// Which names a model answers to.
pub struct Catalog {
    /// Name and activity of each model.
    pub models: Map<Uuid, (Seq<char>, bool)>,
    /// Target and activity of each alias.
    pub aliases: Map<Seq<char>, (Uuid, bool)>,
}

/// What a statement does to the names.
pub open spec fn carry_out(catalog: Catalog, action: DeprecationAction) -> Catalog {
    match action {
        DeprecationAction::AddAlias { alias_name, canonical_model_id } => Catalog {
            models: catalog.models,
            aliases: catalog.aliases.insert(alias_name@, (canonical_model_id, true)),
        },
        DeprecationAction::CarryAliases { from_model_id, to_model_id, except_alias } => Catalog {
            models: catalog.models,
            aliases: Map::new(
                |name: Seq<char>| catalog.aliases.contains_key(name),
                |name: Seq<char>|
                    if catalog.aliases[name] == (from_model_id, true) && name != except_alias@ {
                        (to_model_id, true)
                    } else {
                        catalog.aliases[name]
                    },
            ),
        },
        DeprecationAction::Deactivate { model_id } => Catalog {
            models: if catalog.models.contains_key(model_id) {
                catalog.models.insert(model_id, (catalog.models[model_id].0, false))
            } else {
                catalog.models
            },
            aliases: catalog.aliases,
        },
        _ => catalog,
    }
}

/// Whether a name stands for an active model: it is the name of the model, or
/// an active alias of it.
pub open spec fn resolves_to(catalog: Catalog, name: Seq<char>, model: Uuid) -> bool {
    &&& catalog.models.contains_key(model)
    &&& catalog.models[model].1
    &&& catalog.models[model].0 == name || (catalog.aliases.contains_key(name)
        && catalog.aliases[name] == (model, true))
}

/// Carrying out the three changes of a replacement makes every name that stood
/// for the deprecated model stand for its successor, leaves no name to the
/// deprecated model, moves no other name but that of the deprecated model, and
/// wakes no alias that was switched off.
pub proof fn law_names_follow_the_successor(
    request: DeprecationRequest,
    catalog: Catalog,
    deprecated: Uuid,
    successor: Uuid,
    add: DeprecationAction,
    carry: DeprecationAction,
    deactivate: DeprecationAction,
    name: Seq<char>,
    other: Uuid,
    events: (DeprecationEvent, DeprecationEvent, DeprecationEvent),
    states: (DeprecationState, DeprecationState, DeprecationState),
)
    requires
        catalog.models.contains_key(deprecated),
        catalog.models[deprecated].0 == request.deprecated_model_name@,
        catalog.models.contains_key(successor),
        catalog.models[successor].1,
        deprecated != successor,
        events.0 == (DeprecationEvent::ModelsRead {
            deprecated: Some(
                (ModelRef { id: deprecated, is_active: catalog.models[deprecated].1 }),
            ),
            successor: Some((ModelRef { id: successor, is_active: true })),
        }),
        leads_to(request, DeprecationState::ReadingModels, events.0, states.0, add),
        leads_to(request, states.0, events.1, states.1, carry),
        leads_to(request, states.1, events.2, states.2, deactivate),
    ensures
        ({
            let after = carry_out(carry_out(carry_out(catalog, add), carry), deactivate);
            &&& resolves_to(after, request.deprecated_model_name@, successor)
            &&& resolves_to(catalog, name, deprecated) ==> resolves_to(after, name, successor)
            &&& !resolves_to(after, name, deprecated)
            &&& other != deprecated && name != request.deprecated_model_name@ ==> (resolves_to(
                catalog,
                name,
                other,
            ) ==> resolves_to(after, name, other))
            &&& catalog.aliases.contains_key(name) && !catalog.aliases[name].1 && name
                != request.deprecated_model_name@ ==> after.aliases[name] == catalog.aliases[name]
        }),
{
}

/// What a replacement goes through: with a model that is missing, or a successor
/// that is switched off, nothing is done; otherwise the name becomes an alias of
/// the successor, the other aliases follow, the model is switched off, its
/// history goes on, and both models are read before all of it is committed.
pub proof fn law_replacement_takes_every_step_in_turn(
    request: DeprecationRequest,
    state: DeprecationState,
    event: DeprecationEvent,
    next: DeprecationState,
    action: DeprecationAction,
)
    requires
        expects(state, event),
        leads_to(request, state, event, next, action),
    ensures
        event matches DeprecationEvent::ModelsRead { deprecated, successor } ==> if deprecated is Some
            && successor is Some && successor->0.is_active {
            &&& next == (DeprecationState::AddingAlias {
                deprecated_id: deprecated->0.id,
                successor_id: successor->0.id,
            })
            &&& action matches DeprecationAction::AddAlias { alias_name, canonical_model_id }
            &&& alias_name@ == request.deprecated_model_name@
            &&& canonical_model_id == successor->0.id
        } else {
            next is Ended && action is GiveUp
        },
        state matches DeprecationState::AddingAlias { deprecated_id, successor_id } ==> {
            &&& next == (DeprecationState::CarryingAliases { deprecated_id })
            &&& action matches DeprecationAction::CarryAliases {
                from_model_id,
                to_model_id,
                except_alias,
            }
            &&& from_model_id == deprecated_id && to_model_id == successor_id
            &&& except_alias@ == request.deprecated_model_name@
        },
        state matches DeprecationState::CarryingAliases { deprecated_id } ==> {
            &&& next matches DeprecationState::Deactivating { deprecated_id: id, aliases_carried }
            &&& id == deprecated_id && event == DeprecationEvent::RowsWritten(aliases_carried)
            &&& action == (DeprecationAction::Deactivate { model_id: deprecated_id })
        },
        state matches DeprecationState::Deactivating { deprecated_id, aliases_carried }
            ==> if event == DeprecationEvent::ModelRead(None) {
            next is Ended && action is GiveUp
        } else {
            &&& next matches DeprecationState::ClosingHistory {
                deprecated_id: id,
                aliases_carried: carried,
                snapshot,
            }
            &&& id == deprecated_id && carried == aliases_carried
            &&& event == DeprecationEvent::ModelRead(Some(snapshot))
            &&& action == (DeprecationAction::CloseHistory { model_id: deprecated_id })
        },
        state matches DeprecationState::ClosingHistory { deprecated_id, aliases_carried, snapshot }
            ==> {
            &&& next == (DeprecationState::InsertingHistory { aliases_carried })
            &&& action matches DeprecationAction::InsertHistory(insert)
            &&& insert.model_id == deprecated_id
            &&& insert.snapshot == snapshot
            &&& insert.changed_by_user_id == request.changed_by_user_id
            &&& insert.changed_by_user_email is Some <==> request.changed_by_user_email is Some
            &&& insert.changed_by_user_email is Some ==> insert.changed_by_user_email->0@
                == request.changed_by_user_email->0@
            &&& request.change_reason is Some ==> insert.change_reason@
                == request.change_reason->0@
            &&& request.change_reason is None ==> insert.change_reason@
                == "Deprecated in favor of '"@ + request.successor_model_name@ + "'"@
        },
        state matches DeprecationState::InsertingHistory { aliases_carried } ==> {
            &&& next == (DeprecationState::ReadingDeprecated { aliases_carried })
            &&& action matches DeprecationAction::ReadModel { model_name }
            &&& model_name@ == request.deprecated_model_name@
        },
        state matches DeprecationState::ReadingDeprecated { aliases_carried } ==> if event
            == DeprecationEvent::ModelRead(None) {
            next is Ended && action is Fail
        } else {
            &&& next matches DeprecationState::ReadingSuccessor {
                aliases_carried: carried,
                deprecated,
            }
            &&& carried == aliases_carried
            &&& shows_model(deprecated, event->ModelRead_0->0)
            &&& action matches DeprecationAction::ReadModel { model_name }
            &&& model_name@ == request.successor_model_name@
        },
        state matches DeprecationState::ReadingSuccessor { aliases_carried, deprecated } ==> if event
            == DeprecationEvent::ModelRead(None) {
            next is Ended && action is Fail
        } else {
            &&& next matches DeprecationState::Committing { outcome }
            &&& outcome.deprecated == deprecated
            &&& shows_model(outcome.successor, event->ModelRead_0->0)
            &&& aliases_carried <= u32::MAX ==> outcome.aliases_carried == aliases_carried
            &&& aliases_carried > u32::MAX ==> outcome.aliases_carried == u32::MAX
            &&& action is Commit
        },
        state matches DeprecationState::Committing { outcome } ==> next is Ended && action
            == DeprecationAction::Finish(outcome),
{
}

/// A model is shown as it is stored; one without a provider type runs on vllm,
/// one without a mark supports attestation, and missing lists are empty.
pub proof fn law_shown_model_is_the_stored_one(pricing: ModelPricing, row: ModelRow)
    requires
        shows_model(pricing, row),
    ensures
        pricing.input_cost_per_token == row.input_cost_per_token,
        pricing.output_cost_per_token == row.output_cost_per_token,
        pricing.cost_per_image == row.cost_per_image,
        pricing.cache_read_cost_per_token == row.cache_read_cost_per_token,
        pricing.context_length == row.context_length,
        pricing.verifiable == row.verifiable,
        pricing.is_active == row.is_active,
        pricing.model_display_name == row.model_display_name,
        pricing.model_description == row.model_description,
        pricing.model_icon == row.model_icon,
        pricing.owned_by == row.owned_by,
        pricing.provider_config == row.provider_config,
        pricing.inference_url == row.inference_url,
        pricing.hugging_face_id == row.hugging_face_id,
        pricing.quantization == row.quantization,
        pricing.max_output_length == row.max_output_length,
        pricing.datacenters == row.datacenters,
        pricing.is_ready == row.is_ready,
        pricing.deprecation_date == row.deprecation_date,
        pricing.openrouter_slug == row.openrouter_slug,
        row.provider_type is Some ==> pricing.provider_type@ == row.provider_type->0@,
        row.provider_type is None ==> pricing.provider_type@ == "vllm"@,
        row.attestation_supported is Some ==> pricing.attestation_supported
            == row.attestation_supported->0,
        row.attestation_supported is None ==> pricing.attestation_supported,
        row.aliases is Some ==> pricing.aliases@ == row.aliases->0@,
        row.aliases is None ==> pricing.aliases@.len() == 0,
        row.supported_sampling_parameters is Some ==> pricing.supported_sampling_parameters@
            == row.supported_sampling_parameters->0@,
        row.supported_sampling_parameters is None ==> pricing.supported_sampling_parameters@.len()
            == 0,
        row.supported_features is Some ==> pricing.supported_features@
            == row.supported_features->0@,
        row.supported_features is None ==> pricing.supported_features@.len() == 0,
        row.input_modalities is None ==> pricing.input_modalities is None,
        row.input_modalities is Some ==> optional_list_view(pricing.input_modalities) == text_list(
            row.input_modalities->0@,
        ),
        row.output_modalities is None ==> pricing.output_modalities is None,
        row.output_modalities is Some ==> optional_list_view(pricing.output_modalities)
            == text_list(row.output_modalities->0@),
{
}

/// A stored list is read where it is an array of texts and of nothing else, text
/// for text.
pub proof fn law_lists_of_texts_are_read_whole(json: Seq<char>)
    ensures
        !(crate::json::parsed_json(json) matches Some(crate::json::JsonView::Array(_)))
            ==> text_list(json) is None,
        crate::json::parsed_json(json) matches Some(crate::json::JsonView::Array(items)) ==> {
            &&& text_list(json) is Some <==> forall|i: int|
                0 <= i < items.len() ==> (crate::json::parsed_json(#[trigger] items[i]) matches Some(
                    crate::json::JsonView::Text(_),
                ))
            &&& text_list(json) matches Some(texts) ==> texts.len() == items.len() && forall|i: int|
                0 <= i < texts.len() ==> crate::json::parsed_json(items[i]) == Some(
                    crate::json::JsonView::Text(#[trigger] texts[i]),
                )
        },
{
    match crate::json::parsed_json(json) {
        Some(crate::json::JsonView::Array(items)) => {
            lemma_texts_one_by_one(items);
        },
        _ => {},
    }
}

proof fn lemma_texts_one_by_one(items: Seq<Seq<char>>)
    ensures
        texts_of(items) is Some <==> forall|i: int|
            0 <= i < items.len() ==> (crate::json::parsed_json(#[trigger] items[i]) matches Some(
                crate::json::JsonView::Text(_),
            )),
        texts_of(items) matches Some(texts) ==> texts.len() == items.len() && forall|i: int|
            0 <= i < texts.len() ==> crate::json::parsed_json(items[i]) == Some(
                crate::json::JsonView::Text(#[trigger] texts[i]),
            ),
    decreases items.len(),
{
    if items.len() > 0 {
        let n = items.len() - 1;
        let shorter = items.drop_last();
        lemma_texts_one_by_one(shorter);
        assert forall|i: int| 0 <= i < n implies #[trigger] items[i] == shorter[i] by {}
        assert(items[n] == items.last());
        if texts_of(shorter) is Some {
            assert forall|i: int| 0 <= i < n implies (crate::json::parsed_json(
                #[trigger] items[i],
            ) matches Some(crate::json::JsonView::Text(_))) by {
                assert(shorter[i] == items[i]);
            }
        } else {
            let i = choose|i: int|
                0 <= i < shorter.len() && !(crate::json::parsed_json(#[trigger] shorter[i]) matches
                    Some(crate::json::JsonView::Text(_)));
            assert(!(crate::json::parsed_json(items[i]) matches Some(
                crate::json::JsonView::Text(_),
            )));
        }
    }
}

} // verus!

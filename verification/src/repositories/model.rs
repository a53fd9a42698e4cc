//! The catalog of models.
use crate::ids::Uuid;
use crate::models::{Model, UpdateModelPricingRequest};
use vstd::prelude::*;

verus! {

/// The reason that is recorded where none is given for retiring a model.
pub const DEFAULT_SOFT_DELETE_REASON: &'static str = "Model soft deleted";

/// A model to add to the catalog.
#[derive(Debug, Clone)]
pub struct NewModel {
    pub model_name: String,
    pub input_cost_per_token: i64,
    pub output_cost_per_token: i64,
    pub cost_per_image: i64,
    pub model_display_name: String,
    pub model_description: String,
    pub model_icon: Option<String>,
    pub context_length: i32,
    pub verifiable: bool,
    pub is_active: bool,
    pub owned_by: Option<String>,
}

/// How a request changes the catalog.
#[derive(Debug, Clone)]
pub enum UpsertStep {
    /// Change the model that is there, as far as the request says.
    Update,
    /// Add a model.
    Insert(NewModel),
}

/// What a request for a new model lacks, if anything.
pub open spec fn missing_field(request: UpdateModelPricingRequest) -> Option<Seq<char>> {
    if request.model_display_name is None {
        Some("model_display_name is required for new models"@)
    } else if request.model_description is None {
        Some("model_description is required for new models"@)
    } else if request.context_length is None {
        Some("context_length is required for new models"@)
    } else {
        None
    }
}

/// An optional cost, or nothing.
pub open spec fn cost_or_zero(cost: Option<i64>) -> i64 {
    match cost {
        Some(value) => value,
        None => 0,
    }
}

/// An optional flag, or true.
pub open spec fn flag_or_true(flag: Option<bool>) -> bool {
    match flag {
        Some(value) => value,
        None => true,
    }
}

/// Whether a new model is the one that a request describes.
pub open spec fn describes(
    request: UpdateModelPricingRequest,
    model_name: Seq<char>,
    model: NewModel,
) -> bool {
    &&& model.model_name@ == model_name
    &&& model.input_cost_per_token == cost_or_zero(request.input_cost_per_token)
    &&& model.output_cost_per_token == cost_or_zero(request.output_cost_per_token)
    &&& model.cost_per_image == cost_or_zero(request.cost_per_image)
    &&& Some(model.model_display_name) == request.model_display_name
    &&& Some(model.model_description) == request.model_description
    &&& model.model_icon == request.model_icon
    &&& Some(model.context_length) == request.context_length
    &&& model.verifiable == flag_or_true(request.verifiable)
    &&& model.is_active == flag_or_true(request.is_active)
    &&& model.owned_by == request.owned_by
}

fn cost(value: Option<i64>) -> (r: i64)
    ensures
        r == cost_or_zero(value),
{
    match value {
        Some(cost) => cost,
        None => 0,
    }
}

fn flag(value: Option<bool>) -> (r: bool)
    ensures
        r == flag_or_true(value),
{
    match value {
        Some(flag) => flag,
        None => true,
    }
}

/// Decides how a request changes the catalog. A model that is there can be
/// changed in part; a new one needs a name to show, a description and a context
/// length, and costs nothing, is verifiable and is active unless the request
/// says otherwise.
pub fn upsert_model_pricing(
    model_name: &str,
    exists_already: bool,
    request: &UpdateModelPricingRequest,
) -> (r: Result<UpsertStep, String>)
    ensures
        match r {
            Ok(UpsertStep::Update) => exists_already,
            Ok(UpsertStep::Insert(model)) => {
                &&& !exists_already
                &&& missing_field(*request) is None
                &&& describes(*request, model_name@, model)
            },
            Err(message) => !exists_already && missing_field(*request) == Some(message@),
        },
{
    if exists_already {
        return Ok(UpsertStep::Update);
    }
    let model_display_name = match &request.model_display_name {
        Some(text) => text.clone(),
        None => return Err("model_display_name is required for new models".to_owned()),
    };
    let model_description = match &request.model_description {
        Some(text) => text.clone(),
        None => return Err("model_description is required for new models".to_owned()),
    };
    let context_length: i32 = match request.context_length {
        Some(length) => length,
        None => return Err("context_length is required for new models".to_owned()),
    };
    Ok(
        UpsertStep::Insert(
            NewModel {
                model_name: model_name.to_owned(),
                input_cost_per_token: cost(request.input_cost_per_token),
                output_cost_per_token: cost(request.output_cost_per_token),
                cost_per_image: cost(request.cost_per_image),
                model_display_name,
                model_description,
                model_icon: crate::text::copy_optional(&request.model_icon),
                context_length,
                verifiable: flag(request.verifiable),
                is_active: flag(request.is_active),
                owned_by: crate::text::copy_optional(&request.owned_by),
            },
        ),
    )
}

/// What a model is from now on, as its history records it.
#[derive(Debug, Clone)]
pub struct ModelHistoryEntry {
    pub model_id: Uuid,
    pub input_cost_per_token: i64,
    pub output_cost_per_token: i64,
    pub cost_per_image: i64,
    pub context_length: i32,
    pub model_name: String,
    pub model_display_name: String,
    pub model_description: String,
    pub model_icon: Option<String>,
    pub verifiable: bool,
    pub is_active: bool,
    pub owned_by: String,
    pub changed_by_user_id: Option<Uuid>,
    pub changed_by_user_email: Option<String>,
    pub change_reason: Option<String>,
}

/// The entry that records a change of a model: everything that the model is
/// after the change, and who changed it and why.
pub fn record_model_history(
    model: &Model,
    change_reason: &Option<String>,
    changed_by_user_id: Option<Uuid>,
    changed_by_user_email: &Option<String>,
) -> (r: ModelHistoryEntry)
    ensures
        r.model_id == model.id,
        r.input_cost_per_token == model.input_cost_per_token,
        r.output_cost_per_token == model.output_cost_per_token,
        r.cost_per_image == model.cost_per_image,
        r.context_length == model.context_length,
        r.model_name == model.model_name,
        r.model_display_name == model.model_display_name,
        r.model_description == model.model_description,
        r.model_icon == model.model_icon,
        r.verifiable == model.verifiable,
        r.is_active == model.is_active,
        r.owned_by == model.owned_by,
        r.changed_by_user_id == changed_by_user_id,
        r.changed_by_user_email == *changed_by_user_email,
        r.change_reason == *change_reason,
{
    ModelHistoryEntry {
        model_id: model.id,
        input_cost_per_token: model.input_cost_per_token,
        output_cost_per_token: model.output_cost_per_token,
        cost_per_image: model.cost_per_image,
        context_length: model.context_length,
        model_name: model.model_name.clone(),
        model_display_name: model.model_display_name.clone(),
        model_description: model.model_description.clone(),
        model_icon: crate::text::copy_optional(&model.model_icon),
        verifiable: model.verifiable,
        is_active: model.is_active,
        owned_by: model.owned_by.clone(),
        changed_by_user_id,
        changed_by_user_email: crate::text::copy_optional(changed_by_user_email),
        change_reason: crate::text::copy_optional(change_reason),
    }
}

/// The entry that records that a model was retired, where one was. A reason is
/// always recorded.
pub fn soft_delete_model(
    retired: &Option<Model>,
    change_reason: Option<String>,
    changed_by_user_id: Option<Uuid>,
    changed_by_user_email: &Option<String>,
) -> (r: Option<ModelHistoryEntry>)
    ensures
        match (*retired, r) {
            (Some(model), Some(entry)) => {
                &&& entry.model_id == model.id
                &&& entry.is_active == model.is_active
                &&& entry.input_cost_per_token == model.input_cost_per_token
                &&& entry.output_cost_per_token == model.output_cost_per_token
                &&& entry.cost_per_image == model.cost_per_image
                &&& entry.context_length == model.context_length
                &&& entry.model_name == model.model_name
                &&& entry.model_display_name == model.model_display_name
                &&& entry.model_description == model.model_description
                &&& entry.model_icon == model.model_icon
                &&& entry.verifiable == model.verifiable
                &&& entry.owned_by == model.owned_by
                &&& entry.changed_by_user_id == changed_by_user_id
                &&& entry.changed_by_user_email == *changed_by_user_email
                &&& crate::text::optional_view(entry.change_reason) == Some(
                    match change_reason {
                        Some(reason) => reason@,
                        None => DEFAULT_SOFT_DELETE_REASON@,
                    },
                )
            },
            (None, None) => true,
            _ => false,
        },
{
    match retired {
        None => None,
        Some(model) => {
            let reason = match change_reason {
                Some(reason) => Some(reason),
                None => Some(DEFAULT_SOFT_DELETE_REASON.to_owned()),
            };
            Some(record_model_history(model, &reason, changed_by_user_id, changed_by_user_email))
        },
    }
}

/// A new model needs a name to show, a description and a context length, and is
/// told the first that it lacks.
pub proof fn law_new_models_need_a_description(request: UpdateModelPricingRequest)
    ensures
        missing_field(request) is None <==> request.model_display_name is Some
            && request.model_description is Some && request.context_length is Some,
        request.model_display_name is None ==> missing_field(request) == Some(
            "model_display_name is required for new models"@,
        ),
        request.model_display_name is Some && request.model_description is None ==> missing_field(
            request,
        ) == Some("model_description is required for new models"@),
        request.model_display_name is Some && request.model_description is Some
            && request.context_length is None ==> missing_field(request) == Some(
            "context_length is required for new models"@,
        ),
{
}

/// A new model is what the request says, each cost in its own place; a cost that
/// is not given is zero, and a model is verifiable and active unless it is said
/// not to be.
pub proof fn law_new_model_is_the_one_described(
    request: UpdateModelPricingRequest,
    model_name: Seq<char>,
    model: NewModel,
)
    requires
        describes(request, model_name, model),
    ensures
        model.model_name@ == model_name,
        request.input_cost_per_token is Some ==> model.input_cost_per_token
            == request.input_cost_per_token->0,
        request.input_cost_per_token is None ==> model.input_cost_per_token == 0,
        request.output_cost_per_token is Some ==> model.output_cost_per_token
            == request.output_cost_per_token->0,
        request.output_cost_per_token is None ==> model.output_cost_per_token == 0,
        request.cost_per_image is Some ==> model.cost_per_image == request.cost_per_image->0,
        request.cost_per_image is None ==> model.cost_per_image == 0,
        request.model_display_name == Some(model.model_display_name),
        request.model_description == Some(model.model_description),
        request.context_length == Some(model.context_length),
        model.model_icon == request.model_icon,
        model.owned_by == request.owned_by,
        model.verifiable <==> request.verifiable != Some(false),
        model.is_active <==> request.is_active != Some(false),
{
}

/// A model that is there is changed, and a new one is added, where its
/// description is complete.
pub proof fn law_models_are_changed_or_added(
    model_name: &str,
    request: UpdateModelPricingRequest,
    known: Result<UpsertStep, String>,
    new: Result<UpsertStep, String>,
)
    requires
        call_ensures(upsert_model_pricing, (model_name, true, &request), known),
        call_ensures(upsert_model_pricing, (model_name, false, &request), new),
    ensures
        known matches Ok(step) && step is Update,
        new matches Ok(step) ==> step is Insert,
        new is Ok <==> request.model_display_name is Some && request.model_description is Some
            && request.context_length is Some,
        new matches Ok(UpsertStep::Insert(model)) ==> model.model_name@ == model_name@,
{
}

/// The history of a model holds the model as it was, and who changed it and why.
pub proof fn law_history_holds_the_model(
    model: Model,
    change_reason: Option<String>,
    changed_by_user_id: Option<Uuid>,
    changed_by_user_email: Option<String>,
    r: ModelHistoryEntry,
    retired: Option<ModelHistoryEntry>,
    absent: Option<ModelHistoryEntry>,
)
    requires
        call_ensures(
            record_model_history,
            (&model, &change_reason, changed_by_user_id, &changed_by_user_email),
            r,
        ),
        call_ensures(
            soft_delete_model,
            (&Some(model), change_reason, changed_by_user_id, &changed_by_user_email),
            retired,
        ),
        call_ensures(
            soft_delete_model,
            (&None::<Model>, change_reason, changed_by_user_id, &changed_by_user_email),
            absent,
        ),
    ensures
        r.model_id == model.id,
        r.input_cost_per_token == model.input_cost_per_token,
        r.output_cost_per_token == model.output_cost_per_token,
        r.cost_per_image == model.cost_per_image,
        r.context_length == model.context_length,
        r.model_name == model.model_name,
        r.model_display_name == model.model_display_name,
        r.model_description == model.model_description,
        r.model_icon == model.model_icon,
        r.verifiable == model.verifiable,
        r.is_active == model.is_active,
        r.owned_by == model.owned_by,
        r.changed_by_user_id == changed_by_user_id,
        r.changed_by_user_email == changed_by_user_email,
        r.change_reason == change_reason,
        absent is None,
        retired matches Some(entry) && entry.model_id == model.id && entry.is_active
            == model.is_active && entry.input_cost_per_token == model.input_cost_per_token
            && entry.output_cost_per_token == model.output_cost_per_token && entry.cost_per_image
            == model.cost_per_image && entry.context_length == model.context_length
            && entry.model_name == model.model_name && entry.changed_by_user_id
            == changed_by_user_id && (change_reason matches Some(reason) ==> (
        entry.change_reason matches Some(kept) && kept@ == reason@)),
{
}

} // verus!

//! Records that the repositories store and the requests that change them.
//!
//! Amounts of money are nano-dollars. A field that holds JSON holds its text.
use crate::ids::Uuid;
use crate::time::Timestamp;
use vstd::prelude::*;

verus! {

/// An organization, the top level of ownership.
#[derive(Debug, Clone)]
pub struct Organization {
    pub id: Uuid,
    pub name: String,
    pub display_name: String,
    pub description: Option<String>,
    pub created_at: Timestamp,
    pub updated_at: Timestamp,
    pub is_active: bool,
    /// Requests per minute.
    pub rate_limit: Option<i32>,
    pub settings: Option<String>,
}

/// A user, who can belong to several organizations.
#[derive(Debug, Clone)]
pub struct User {
    pub id: Uuid,
    pub email: String,
    pub username: String,
    pub display_name: Option<String>,
    pub avatar_url: Option<String>,
    pub created_at: Timestamp,
    pub updated_at: Timestamp,
    pub last_login_at: Option<Timestamp>,
    pub is_active: bool,
    pub auth_provider: String,
    pub provider_user_id: String,
}

/// The membership of one user in one organization.
#[derive(Debug, Clone, Copy)]
pub struct OrganizationMember {
    pub id: Uuid,
    pub organization_id: Uuid,
    pub user_id: Uuid,
    pub role: OrganizationRole,
    pub joined_at: Timestamp,
    pub invited_by: Option<Uuid>,
}

/// An invitation to join an organization.
#[derive(Debug, Clone)]
pub struct OrganizationInvitation {
    pub id: Uuid,
    pub organization_id: Uuid,
    pub email: String,
    pub role: OrganizationRole,
    pub invited_by_user_id: Uuid,
    pub status: InvitationStatus,
    pub token: String,
    pub created_at: Timestamp,
    pub expires_at: Timestamp,
    pub responded_at: Option<Timestamp>,
}

/// How far an invitation has come.
#[derive(Debug, Clone, Copy, PartialEq, Eq, Structural)]
pub enum InvitationStatus {
    Pending,
    Accepted,
    Declined,
    Expired,
}

impl InvitationStatus {
    /// The name under which a status is stored.
    pub open spec fn name(self) -> Seq<char> {
        match self {
            InvitationStatus::Pending => "pending"@,
            InvitationStatus::Accepted => "accepted"@,
            InvitationStatus::Declined => "declined"@,
            InvitationStatus::Expired => "expired"@,
        }
    }

    /// The name under which a status is stored.
    pub fn as_str(&self) -> (r: &'static str)
        ensures
            r@ == self.name(),
    {
        match self {
            InvitationStatus::Pending => "pending",
            InvitationStatus::Accepted => "accepted",
            InvitationStatus::Declined => "declined",
            InvitationStatus::Expired => "expired",
        }
    }
}

/// The role of a member within an organization.
#[derive(Debug, Clone, Copy, PartialEq, Eq, Structural)]
pub enum OrganizationRole {
    Owner,
    Admin,
    Member,
}

impl OrganizationRole {
    /// The name under which a role is stored.
    pub open spec fn name(self) -> Seq<char> {
        match self {
            OrganizationRole::Owner => "owner"@,
            OrganizationRole::Admin => "admin"@,
            OrganizationRole::Member => "member"@,
        }
    }

    /// The name under which a role is stored.
    pub fn as_str(&self) -> (r: &'static str)
        ensures
            r@ == self.name(),
    {
        match self {
            OrganizationRole::Owner => "owner",
            OrganizationRole::Admin => "admin",
            OrganizationRole::Member => "member",
        }
    }

    /// Owners and admins manage the organization.
    pub fn can_manage_organization(&self) -> (r: bool)
        ensures
            r == (*self is Owner || *self is Admin),
    {
        matches!(self, OrganizationRole::Owner | OrganizationRole::Admin)
    }

    /// Owners and admins manage its members.
    pub fn can_manage_members(&self) -> (r: bool)
        ensures
            r == (*self is Owner || *self is Admin),
    {
        matches!(self, OrganizationRole::Owner | OrganizationRole::Admin)
    }

    /// Every member manages keys of their own.
    pub fn can_manage_api_keys(&self) -> (r: bool)
        ensures
            r,
    {
        true
    }

    /// Only owners delete the organization.
    pub fn can_delete_organization(&self) -> (r: bool)
        ensures
            r == (*self is Owner),
    {
        matches!(self, OrganizationRole::Owner)
    }

    /// Owners and admins manage its connectors.
    pub fn can_manage_mcp_connectors(&self) -> (r: bool)
        ensures
            r == (*self is Owner || *self is Admin),
    {
        matches!(self, OrganizationRole::Owner | OrganizationRole::Admin)
    }
}

/// A workspace, which belongs to an organization and owns API keys.
#[derive(Debug, Clone)]
pub struct Workspace {
    pub id: Uuid,
    pub name: String,
    pub display_name: String,
    pub description: Option<String>,
    pub organization_id: Uuid,
    pub created_by_user_id: Uuid,
    pub created_at: Timestamp,
    pub updated_at: Timestamp,
    pub is_active: bool,
    pub settings: Option<String>,
}

/// An API key as it is stored: only its hash and a prefix for display.
#[derive(Debug, Clone)]
pub struct ApiKey {
    pub id: Uuid,
    pub key_hash: String,
    pub key_prefix: String,
    pub name: String,
    pub workspace_id: Uuid,
    pub created_by_user_id: Uuid,
    pub created_at: Timestamp,
    pub expires_at: Option<Timestamp>,
    pub last_used_at: Option<Timestamp>,
    pub is_active: bool,
    /// What the key may spend; no limit where it is absent.
    pub spend_limit: Option<i64>,
}

/// A login session.
#[derive(Debug, Clone)]
pub struct Session {
    pub id: Uuid,
    pub user_id: Uuid,
    pub token_hash: String,
    pub created_at: Timestamp,
    pub expires_at: Timestamp,
    pub ip_address: Option<String>,
    pub user_agent: Option<String>,
}

/// A request for a new organization.
#[derive(Debug, Clone)]
pub struct CreateOrganizationRequest {
    pub name: String,
    pub display_name: String,
    pub description: Option<String>,
}

/// A request to add a member.
#[derive(Debug, Clone, Copy)]
pub struct AddOrganizationMemberRequest {
    pub user_id: Uuid,
    pub role: OrganizationRole,
}

/// A request to change the role of a member.
#[derive(Debug, Clone, Copy)]
pub struct UpdateOrganizationMemberRequest {
    pub role: OrganizationRole,
}

/// A request to change an organization.
#[derive(Debug, Clone)]
pub struct UpdateOrganizationRequest {
    pub display_name: Option<String>,
    pub description: Option<String>,
    pub rate_limit: Option<i32>,
    pub settings: Option<String>,
}

/// The answer to a request for a new key, the only one that holds the key.
#[derive(Debug, Clone)]
pub struct ApiKeyResponse {
    pub id: Uuid,
    pub key: String,
    pub name: String,
    pub created_at: Timestamp,
    pub expires_at: Option<Timestamp>,
}

/// A request for a new workspace.
#[derive(Debug, Clone)]
pub struct CreateWorkspaceRequest {
    pub name: String,
    pub display_name: String,
    pub description: Option<String>,
}

/// A request to change a workspace.
#[derive(Debug, Clone)]
pub struct UpdateWorkspaceRequest {
    pub display_name: Option<String>,
    pub description: Option<String>,
    pub settings: Option<String>,
}

/// How a connector authenticates.
#[derive(Debug, Clone, Copy, PartialEq, Eq, Structural)]
pub enum McpAuthType {
    NoAuth,
    Bearer,
}

impl McpAuthType {
    /// The name under which an authentication type is stored.
    pub open spec fn name(self) -> Seq<char> {
        match self {
            McpAuthType::NoAuth => "none"@,
            McpAuthType::Bearer => "bearer"@,
        }
    }

    /// The name under which an authentication type is stored.
    pub fn as_str(&self) -> (r: &'static str)
        ensures
            r@ == self.name(),
    {
        match self {
            McpAuthType::NoAuth => "none",
            McpAuthType::Bearer => "bearer",
        }
    }
}

/// What is known of the connection of a connector.
#[derive(Debug, Clone, Copy, PartialEq, Eq, Structural)]
pub enum McpConnectionStatus {
    Pending,
    Connected,
    Failed,
}

impl McpConnectionStatus {
    /// The name under which a connection status is stored.
    pub open spec fn name(self) -> Seq<char> {
        match self {
            McpConnectionStatus::Pending => "pending"@,
            McpConnectionStatus::Connected => "connected"@,
            McpConnectionStatus::Failed => "failed"@,
        }
    }

    /// The name under which a connection status is stored.
    pub fn as_str(&self) -> (r: &'static str)
        ensures
            r@ == self.name(),
    {
        match self {
            McpConnectionStatus::Pending => "pending",
            McpConnectionStatus::Connected => "connected",
            McpConnectionStatus::Failed => "failed",
        }
    }
}

/// A connector to an external server.
#[derive(Debug, Clone)]
pub struct McpConnector {
    pub id: Uuid,
    pub organization_id: Uuid,
    pub name: String,
    pub description: Option<String>,
    pub mcp_server_url: String,
    pub auth_type: McpAuthType,
    pub auth_config: Option<String>,
    pub is_active: bool,
    pub created_by: Uuid,
    pub created_at: Timestamp,
    pub updated_at: Timestamp,
    pub last_connected_at: Option<Timestamp>,
    pub connection_status: McpConnectionStatus,
    pub error_message: Option<String>,
    pub capabilities: Option<String>,
    pub metadata: Option<String>,
}

/// The token of a connector with bearer authentication.
#[derive(Debug, Clone)]
pub struct McpBearerConfig {
    pub token: String,
}

/// A request for a new connector.
#[derive(Debug, Clone)]
pub struct CreateMcpConnectorRequest {
    pub name: String,
    pub description: Option<String>,
    pub mcp_server_url: String,
    pub auth_type: McpAuthType,
    /// Needed where the authentication type is bearer.
    pub bearer_token: Option<String>,
}

/// A request to change a connector; what is absent stays as it is.
#[derive(Debug, Clone)]
pub struct UpdateMcpConnectorRequest {
    pub name: Option<String>,
    pub description: Option<String>,
    pub mcp_server_url: Option<String>,
    pub auth_type: Option<McpAuthType>,
    pub bearer_token: Option<String>,
    pub is_active: Option<bool>,
}

/// One call through a connector.
#[derive(Debug, Clone)]
pub struct McpConnectorUsage {
    pub id: Uuid,
    pub connector_id: Uuid,
    pub user_id: Uuid,
    pub method: String,
    pub request_payload: Option<String>,
    pub response_payload: Option<String>,
    pub status_code: Option<i32>,
    pub error_message: Option<String>,
    pub duration_ms: Option<i32>,
    pub created_at: Timestamp,
}

/// One response of a model.
#[derive(Debug, Clone)]
pub struct Response {
    pub id: Uuid,
    pub user_id: Uuid,
    pub model: String,
    pub input_messages: String,
    pub output_message: Option<String>,
    pub status: ResponseStatus,
    pub instructions: Option<String>,
    pub conversation_id: Option<Uuid>,
    pub previous_response_id: Option<Uuid>,
    pub usage: Option<String>,
    pub metadata: Option<String>,
    pub created_at: Timestamp,
    pub updated_at: Timestamp,
}

/// How far a response has come.
#[derive(Debug, Clone, Copy, PartialEq, Eq, Structural)]
pub enum ResponseStatus {
    InProgress,
    Completed,
    Failed,
    Cancelled,
}

impl ResponseStatus {
    /// The name under which a status is stored.
    pub open spec fn name(self) -> Seq<char> {
        match self {
            ResponseStatus::InProgress => "in_progress"@,
            ResponseStatus::Completed => "completed"@,
            ResponseStatus::Failed => "failed"@,
            ResponseStatus::Cancelled => "cancelled"@,
        }
    }

    /// The name under which a status is stored.
    pub fn as_str(&self) -> (r: &'static str)
        ensures
            r@ == self.name(),
    {
        match self {
            ResponseStatus::InProgress => "in_progress",
            ResponseStatus::Completed => "completed",
            ResponseStatus::Failed => "failed",
            ResponseStatus::Cancelled => "cancelled",
        }
    }
}

/// A conversation.
#[derive(Debug, Clone)]
pub struct Conversation {
    pub id: Uuid,
    pub workspace_id: Uuid,
    pub api_key_id: Uuid,
    pub pinned_at: Option<Timestamp>,
    pub archived_at: Option<Timestamp>,
    pub deleted_at: Option<Timestamp>,
    pub cloned_from_id: Option<Uuid>,
    pub metadata: String,
    pub created_at: Timestamp,
    pub updated_at: Timestamp,
}

/// A model with its prices.
#[derive(Debug, Clone)]
pub struct Model {
    pub id: Uuid,
    pub model_name: String,
    pub model_display_name: String,
    pub model_description: String,
    pub model_icon: Option<String>,
    pub input_cost_per_token: i64,
    pub output_cost_per_token: i64,
    pub cost_per_image: i64,
    pub context_length: i32,
    pub verifiable: bool,
    pub is_active: bool,
    pub owned_by: String,
    pub created_at: Timestamp,
    pub updated_at: Timestamp,
    pub aliases: Vec<String>,
}

/// A request to set the prices and metadata of a model; what is absent stays
/// as it is.
#[derive(Debug, Clone)]
pub struct UpdateModelPricingRequest {
    pub input_cost_per_token: Option<i64>,
    pub output_cost_per_token: Option<i64>,
    pub cost_per_image: Option<i64>,
    pub model_display_name: Option<String>,
    pub model_description: Option<String>,
    pub model_icon: Option<String>,
    pub context_length: Option<i32>,
    pub verifiable: Option<bool>,
    pub is_active: Option<bool>,
    pub owned_by: Option<String>,
    pub change_reason: Option<String>,
    pub changed_by_user_id: Option<Uuid>,
    pub changed_by_user_email: Option<String>,
}

/// What a model was during one period.
#[derive(Debug, Clone)]
pub struct ModelHistory {
    pub id: Uuid,
    pub model_id: Uuid,
    pub input_cost_per_token: i64,
    pub output_cost_per_token: i64,
    pub cost_per_image: i64,
    pub context_length: i32,
    pub model_name: String,
    pub model_display_name: String,
    pub model_description: String,
    pub model_icon: Option<String>,
    pub verifiable: bool,
    pub is_active: bool,
    pub owned_by: String,
    pub effective_from: Timestamp,
    pub effective_until: Option<Timestamp>,
    pub changed_by_user_id: Option<Uuid>,
    pub changed_by_user_email: Option<String>,
    pub change_reason: Option<String>,
    pub created_at: Timestamp,
}

/// What the prices of a model were during one period.
#[derive(Debug, Clone)]
pub struct ModelPricingHistory {
    pub id: Uuid,
    pub model_id: Uuid,
    pub input_cost_per_token: i64,
    pub output_cost_per_token: i64,
    pub context_length: i32,
    pub model_display_name: String,
    pub model_description: String,
    pub effective_from: Timestamp,
    pub effective_until: Option<Timestamp>,
    pub changed_by: Option<String>,
    pub change_reason: Option<String>,
    pub created_at: Timestamp,
}

/// What an organization could spend of one type of credit during one period.
#[derive(Debug, Clone)]
pub struct OrganizationLimitsHistory {
    pub id: Uuid,
    pub organization_id: Uuid,
    pub spend_limit: i64,
    pub credit_type: String,
    pub source: Option<String>,
    pub currency: String,
    pub effective_from: Timestamp,
    pub effective_until: Option<Timestamp>,
    pub changed_by: Option<String>,
    pub change_reason: Option<String>,
    pub changed_by_user_id: Option<Uuid>,
    pub changed_by_user_email: Option<String>,
    pub created_at: Timestamp,
}

/// A request to set the limit of one type of credit.
#[derive(Debug, Clone)]
pub struct UpdateOrganizationLimitsDbRequest {
    pub spend_limit: i64,
    pub credit_type: String,
    pub source: Option<String>,
    pub currency: String,
    pub changed_by: Option<String>,
    pub change_reason: Option<String>,
    pub changed_by_user_id: Option<Uuid>,
    pub changed_by_user_email: Option<String>,
}

/// One charged inference request.
#[derive(Debug, Clone)]
pub struct OrganizationUsageLog {
    pub id: Uuid,
    pub organization_id: Uuid,
    pub workspace_id: Uuid,
    pub api_key_id: Uuid,
    pub response_id: Option<Uuid>,
    pub model_id: String,
    pub input_tokens: i32,
    pub output_tokens: i32,
    pub total_tokens: i32,
    pub input_cost: i64,
    pub output_cost: i64,
    pub total_cost: i64,
    pub request_type: String,
    pub created_at: Timestamp,
}

/// What an organization has spent in all.
#[derive(Debug, Clone, Copy)]
pub struct OrganizationBalance {
    pub organization_id: Uuid,
    pub total_spent: i64,
    pub last_usage_at: Option<Timestamp>,
    pub total_requests: i64,
    pub total_tokens: i64,
    pub updated_at: Timestamp,
}

/// A request to charge an inference request.
#[derive(Debug, Clone)]
pub struct RecordUsageRequest {
    pub organization_id: Uuid,
    pub workspace_id: Uuid,
    pub api_key_id: Uuid,
    pub response_id: Option<Uuid>,
    pub model_id: String,
    pub input_tokens: i32,
    pub output_tokens: i32,
    pub input_cost: i64,
    pub output_cost: i64,
    pub total_cost: i64,
    pub request_type: String,
}

/// Everything is stored under its name.
pub proof fn law_names_are_those_of_the_stored_values()
    ensures
        InvitationStatus::Pending.name() == "pending"@,
        InvitationStatus::Accepted.name() == "accepted"@,
        InvitationStatus::Declined.name() == "declined"@,
        InvitationStatus::Expired.name() == "expired"@,
        OrganizationRole::Owner.name() == "owner"@,
        OrganizationRole::Admin.name() == "admin"@,
        OrganizationRole::Member.name() == "member"@,
        McpAuthType::NoAuth.name() == "none"@,
        McpAuthType::Bearer.name() == "bearer"@,
        McpConnectionStatus::Pending.name() == "pending"@,
        McpConnectionStatus::Connected.name() == "connected"@,
        McpConnectionStatus::Failed.name() == "failed"@,
        ResponseStatus::InProgress.name() == "in_progress"@,
        ResponseStatus::Completed.name() == "completed"@,
        ResponseStatus::Failed.name() == "failed"@,
        ResponseStatus::Cancelled.name() == "cancelled"@,
{
}

/// Owners may do everything, admins all but delete the organization, and members
/// only have keys.
pub proof fn law_roles_have_their_rights(
    role: OrganizationRole,
    organization: bool,
    members: bool,
    keys: bool,
    deletion: bool,
    connectors: bool,
)
    requires
        call_ensures(OrganizationRole::can_manage_organization, (&role,), organization),
        call_ensures(OrganizationRole::can_manage_members, (&role,), members),
        call_ensures(OrganizationRole::can_manage_api_keys, (&role,), keys),
        call_ensures(OrganizationRole::can_delete_organization, (&role,), deletion),
        call_ensures(OrganizationRole::can_manage_mcp_connectors, (&role,), connectors),
    ensures
        role == OrganizationRole::Owner ==> organization && members && keys && deletion
            && connectors,
        role == OrganizationRole::Admin ==> organization && members && keys && !deletion
            && connectors,
        role == OrganizationRole::Member ==> !organization && !members && keys && !deletion
            && !connectors,
{
}

} // verus!

//! The decisions of the repositories, from the rows they read to the rows they
//! write.
pub mod admin_access_token;
pub mod admin_composite;
pub mod admission_snapshot;
pub mod aml;
pub mod api_key;
pub mod api_key_model_affinity;
pub mod attestation;
pub mod concurrency_lease;
pub mod conversation;
pub mod credit_adjustment;
pub mod credit_allocation;
pub mod credit_event;
pub mod feature_request;
pub mod file;
pub mod mcp_connector;
pub mod model;
pub mod model_alias;
pub mod model_deprecation;
pub mod near_nonce;
pub mod oauth_state;
pub mod organization;
pub mod organization_invitation;
pub mod organization_limits;
pub mod organization_reporting_token;
pub mod organization_service_usage;
pub mod organization_service_usage_reporting_summary;

//! Tokens with which reports can be read.
use crate::error::{validation_failed, RepositoryError};
use crate::ids::Uuid;
use crate::text::trim;
use crate::time::Timestamp;
use vstd::prelude::*;

verus! {

/// A token, as far as it is stored.
#[derive(Debug, Clone)]
pub struct OrganizationReportingTokenRow {
    pub id: Uuid,
    pub organization_id: Uuid,
    pub name: String,
    pub token_prefix: String,
    pub created_by_user_id: Uuid,
    pub created_at: Timestamp,
    pub expires_at: Option<Timestamp>,
    pub last_used_at: Option<Timestamp>,
    pub revoked_at: Option<Timestamp>,
    pub revoked_by_user_id: Option<Uuid>,
}

/// A token, as callers see it.
#[derive(Debug, Clone)]
pub struct OrganizationReportingToken {
    pub id: Uuid,
    pub organization_id: Uuid,
    pub name: String,
    pub token_prefix: String,
    pub created_by_user_id: Uuid,
    pub created_at: Timestamp,
    pub expires_at: Option<Timestamp>,
    pub last_used_at: Option<Timestamp>,
    pub revoked_at: Option<Timestamp>,
    pub revoked_by_user_id: Option<Uuid>,
    pub scope: &'static str,
}

/// What is known of a token that was found valid.
#[derive(Debug, Clone)]
pub struct ValidatedOrganizationReportingToken {
    pub id: Uuid,
    pub organization_id: Uuid,
    pub token_prefix: String,
    pub last_used_at: Option<Timestamp>,
    pub scope: &'static str,
}

impl OrganizationReportingTokenRow {
    /// A token with the scope that all such tokens have.
    pub fn into_service_token(self, scope: &'static str) -> (r: OrganizationReportingToken)
        ensures
            r == (OrganizationReportingToken {
                id: self.id,
                organization_id: self.organization_id,
                name: self.name,
                token_prefix: self.token_prefix,
                created_by_user_id: self.created_by_user_id,
                created_at: self.created_at,
                expires_at: self.expires_at,
                last_used_at: self.last_used_at,
                revoked_at: self.revoked_at,
                revoked_by_user_id: self.revoked_by_user_id,
                scope,
            }),
    {
        OrganizationReportingToken {
            id: self.id,
            organization_id: self.organization_id,
            name: self.name,
            token_prefix: self.token_prefix,
            created_by_user_id: self.created_by_user_id,
            created_at: self.created_at,
            expires_at: self.expires_at,
            last_used_at: self.last_used_at,
            revoked_at: self.revoked_at,
            revoked_by_user_id: self.revoked_by_user_id,
            scope,
        }
    }

    /// What a caller learns who presents the token.
    pub fn into_validated_token(self, scope: &'static str) -> (r:
        ValidatedOrganizationReportingToken)
        ensures
            r == (ValidatedOrganizationReportingToken {
                id: self.id,
                organization_id: self.organization_id,
                token_prefix: self.token_prefix,
                last_used_at: self.last_used_at,
                scope,
            }),
    {
        ValidatedOrganizationReportingToken {
            id: self.id,
            organization_id: self.organization_id,
            token_prefix: self.token_prefix,
            last_used_at: self.last_used_at,
            scope,
        }
    }
}

/// The name of a new token, without space around it; a name of nothing else is
/// refused.
pub fn token_name(name: &str) -> (r: Result<String, RepositoryError>)
    ensures
        match r {
            Ok(trimmed) => trimmed@ == crate::text::trimmed(name@) && trimmed@.len() > 0,
            Err(e) => crate::text::trimmed(name@).len() == 0 && e@
                == crate::error::RepositoryErrorView::ValidationFailed(
                "reporting token name cannot be empty"@,
            ),
        },
{
    let trimmed = trim(name);
    if crate::text::char_list(trimmed.as_str()).len() == 0 {
        Err(validation_failed("reporting token name cannot be empty"))
    } else {
        Ok(trimmed)
    }
}

/// Whether a token was revoked just now.
pub fn revoke_token(rows_updated: u64) -> (r: bool)
    ensures
        r == (rows_updated > 0),
{
    rows_updated > 0
}

/// A token is named without the space around its name, and must have a name.
pub proof fn law_tokens_are_named(name: &str, r: Result<String, RepositoryError>)
    requires
        call_ensures(token_name, (name,), r),
    ensures
        r is Err <==> forall|i: int| 0 <= i < name@.len() ==> crate::text::is_white_space(
            #[trigger] name@[i],
        ),
        r matches Ok(kept) ==> kept@ == crate::text::trimmed(name@),
        r matches Err(e) ==> e@ == crate::error::RepositoryErrorView::ValidationFailed(
            "reporting token name cannot be empty"@,
        ),
{
    crate::text::law_blank_texts_are_white_space(name@);
}

/// A token is shown as it is stored, with its scope.
pub proof fn law_tokens_are_shown_as_stored(
    row: OrganizationReportingTokenRow,
    scope: &'static str,
    shown: OrganizationReportingToken,
    validated: ValidatedOrganizationReportingToken,
)
    requires
        call_ensures(OrganizationReportingTokenRow::into_service_token, (row, scope), shown),
        call_ensures(OrganizationReportingTokenRow::into_validated_token, (row, scope), validated),
    ensures
        shown.id == row.id && validated.id == row.id,
        shown.organization_id == row.organization_id && validated.organization_id
            == row.organization_id,
        shown.token_prefix == row.token_prefix && validated.token_prefix == row.token_prefix,
        shown.last_used_at == row.last_used_at && validated.last_used_at == row.last_used_at,
        shown.scope == scope && validated.scope == scope,
        shown.name == row.name,
        shown.created_by_user_id == row.created_by_user_id,
        shown.created_at == row.created_at,
        shown.expires_at == row.expires_at,
        shown.revoked_at == row.revoked_at,
        shown.revoked_by_user_id == row.revoked_by_user_id,
{
}

} // verus!

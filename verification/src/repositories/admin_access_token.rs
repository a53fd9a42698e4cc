//! Tokens for administrators.
use crate::digest::hash_text;
use crate::ids::Uuid;
use crate::time::Timestamp;
use vstd::prelude::*;
use vstd::string::StringExecFns;

verus! {

/// A token, as far as it is stored.
#[derive(Debug, Clone)]
pub struct AdminAccessToken {
    pub id: Uuid,
    pub token_hash: String,
    pub created_by_user_id: Uuid,
    pub name: String,
    pub creation_reason: String,
    pub created_at: Timestamp,
    pub expires_at: Timestamp,
    pub last_used_at: Option<Timestamp>,
    pub is_active: bool,
    pub revoked_at: Option<Timestamp>,
    pub revoked_by_user_id: Option<Uuid>,
    pub revocation_reason: Option<String>,
    pub user_agent: Option<String>,
}

/// The token that an identifier gives.
pub open spec fn token_of(id: Uuid) -> Seq<char> {
    "adm_"@ + crate::ids::simple(id)
}

/// The token that an identifier gives.
pub fn admin_access_token_from(id: Uuid) -> (r: String)
    ensures
        r@ == token_of(id),
{
    let mut token = "adm_".to_owned();
    token.append(id.to_simple_text().as_str());
    token
}

/// A new token: a prefix and a random identifier.
pub fn generate_admin_access_token() -> (r: String)
    ensures
        exists|id: Uuid| r@ == #[trigger] token_of(id) && crate::ids::is_version_four(id),
        r@.len() == 36,
{
    let id = Uuid::new_v4();
    proof {
        reveal_strlit("adm_");
        assert("adm_"@.len() == 4);
        assert(crate::ids::simple(id).len() == 32);
    }
    admin_access_token_from(id)
}

/// The hash of a token, which is all that is stored of it.
pub fn hash_admin_access_token(token: &str) -> (r: String)
    ensures
        r@ == crate::digest::hashed_text(token@),
        r@.len() == 64,
{
    hash_text(token)
}

/// Who asks for a token, and why.
#[derive(Debug, Clone)]
pub struct NewAdminAccessToken {
    pub created_by_user_id: Uuid,
    pub name: String,
    pub creation_reason: String,
    pub expires_at: Timestamp,
    pub user_agent: Option<String>,
}

/// A new token and what is stored of it. The identifiers of the record and of
/// the token itself are drawn by the caller.
pub fn create(request: NewAdminAccessToken, id: Uuid, token_id: Uuid, now: Timestamp) -> (r: (
    AdminAccessToken,
    String,
))
    ensures
        r.1@ == token_of(token_id),
        r.0.id == id,
        r.0.token_hash@ == crate::digest::hashed_text(r.1@),
        r.0.created_by_user_id == request.created_by_user_id,
        r.0.name == request.name,
        r.0.creation_reason == request.creation_reason,
        r.0.created_at == now,
        r.0.expires_at == request.expires_at,
        r.0.last_used_at is None,
        r.0.is_active,
        r.0.revoked_at is None,
        r.0.revoked_by_user_id is None,
        r.0.revocation_reason is None,
        r.0.user_agent == request.user_agent,
{
    let token = admin_access_token_from(token_id);
    let token_hash = hash_admin_access_token(token.as_str());
    (
        AdminAccessToken {
            id,
            token_hash,
            created_by_user_id: request.created_by_user_id,
            name: request.name,
            creation_reason: request.creation_reason,
            created_at: now,
            expires_at: request.expires_at,
            last_used_at: None,
            is_active: true,
            revoked_at: None,
            revoked_by_user_id: None,
            revocation_reason: None,
            user_agent: request.user_agent,
        },
        token,
    )
}

/// A token that was found valid, with its use noted.
pub fn validate(found: Option<AdminAccessToken>, now: Timestamp) -> (r: Option<AdminAccessToken>)
    ensures
        match (found, r) {
            (Some(token), Some(used)) => used == (AdminAccessToken {
                last_used_at: Some(now),
                ..token
            }),
            (None, None) => true,
            _ => false,
        },
{
    match found {
        Some(token) => Some(AdminAccessToken { last_used_at: Some(now), ..token }),
        None => None,
    }
}

/// Whether a token was revoked just now.
pub fn revoke(rows_updated: u64) -> (r: bool)
    ensures
        r == (rows_updated > 0),
{
    rows_updated > 0
}

/// A token is its prefix and the digits of its identifier.
pub proof fn law_tokens_have_their_prefix(id: Uuid)
    ensures
        token_of(id).len() == 36,
        token_of(id).take(4) == "adm_"@,
        token_of(id).skip(4) == crate::ids::simple(id),
{
    reveal_strlit("adm_");
    assert("adm_"@.len() == 4);
    assert(token_of(id).take(4) =~= "adm_"@);
    assert(token_of(id).skip(4) =~= crate::ids::simple(id));
}

} // verus!

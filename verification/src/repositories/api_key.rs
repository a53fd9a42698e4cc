//! Keys for the programming interface.
use crate::digest::hash_text;
use crate::ids::Uuid;
use crate::models::{ApiKey, ApiKeyResponse};
use crate::time::Timestamp;
use vstd::prelude::*;
use vstd::string::StrSliceExecFns;
use vstd::string::StringExecFns;
use vstd::utf8::*;

verus! {

/// The length of the part of a key that is shown.
pub const SHOWN_LENGTH: usize = 10;

/// The key that an identifier gives.
pub open spec fn key_of(id: Uuid) -> Seq<char> {
    "sk_"@ + crate::ids::simple(id)
}

/// The key that an identifier gives.
pub fn api_key_from(id: Uuid) -> (r: String)
    ensures
        r@ == key_of(id),
{
    let mut key = "sk_".to_owned();
    key.append(id.to_simple_text().as_str());
    key
}

/// A new key: a prefix and a random identifier.
pub fn generate_api_key() -> (r: String)
    ensures
        exists|id: Uuid| r@ == #[trigger] key_of(id) && crate::ids::is_version_four(id),
        r@.len() == 35,
{
    let id = Uuid::new_v4();
    proof {
        reveal_strlit("sk_");
        assert("sk_"@.len() == 3);
        assert(crate::ids::simple(id).len() == 32);
    }
    api_key_from(id)
}

/// The hash of a key, which is all that is stored of it.
pub fn hash_api_key(key: &str) -> (r: String)
    ensures
        r@ == crate::digest::hashed_text(key@),
        r@.len() == 64,
{
    hash_text(key)
}

/// The part of a key that is shown.
pub open spec fn shown_part(key: Seq<char>) -> Seq<char> {
    key.take(
        if key.len() < SHOWN_LENGTH {
            key.len() as int
        } else {
            SHOWN_LENGTH as int
        },
    )
}

fn extract_key_prefix(key: &str) -> (r: String)
    requires
        is_ascii_chars(key@),
    ensures
        r@ == shown_part(key@),
{
    let length: usize = crate::text::char_list(key).len();
    let end: usize = if length < SHOWN_LENGTH {
        length
    } else {
        SHOWN_LENGTH
    };
    assert(key@.subrange(0, end as int) =~= shown_part(key@));
    key.substring_char(0, end).to_owned()
}

/// A request for a key.
#[derive(Debug, Clone)]
pub struct CreateApiKeyRequest {
    pub name: Option<String>,
    pub workspace_id: Uuid,
    pub created_by_user_id: Uuid,
    pub expires_at: Option<Timestamp>,
}

/// The name of a key: empty where the request gives none.
pub open spec fn requested_name(request: CreateApiKeyRequest) -> Seq<char> {
    match request.name {
        Some(name) => name@,
        None => seq![],
    }
}

proof fn lemma_key_is_ascii(id: Uuid)
    ensures
        is_ascii_chars(key_of(id)),
{
    reveal_strlit("sk_");
    let key = key_of(id);
    let digits = crate::ids::simple(id);
    assert forall|i: int| 0 <= i < key.len() implies '\0' <= #[trigger] key[i] <= '\u{7f}' by {
        if i < 3 {
            assert(key[i] == "sk_"@[i]);
        } else {
            assert(key[i] == digits[i - 3]);
        }
    }
}

/// A new key and what is stored of it. The identifiers of the record and of the
/// key itself are drawn by the caller.
pub fn create(request: CreateApiKeyRequest, id: Uuid, key_id: Uuid, now: Timestamp) -> (r: (
    String,
    ApiKey,
))
    ensures
        r.0@ == key_of(key_id),
        r.1.id == id,
        r.1.key_hash@ == crate::digest::hashed_text(r.0@),
        r.1.key_prefix@ == shown_part(r.0@),
        r.1.name@ == requested_name(request),
        r.1.workspace_id == request.workspace_id,
        r.1.created_by_user_id == request.created_by_user_id,
        r.1.created_at == now,
        r.1.expires_at == request.expires_at,
        r.1.last_used_at is None,
        r.1.is_active,
        r.1.spend_limit is None,
{
    let key = api_key_from(key_id);
    let key_hash = hash_api_key(key.as_str());
    proof {
        lemma_key_is_ascii(key_id);
    }
    let key_prefix = extract_key_prefix(key.as_str());
    let name = match request.name {
        Some(name) => name,
        None => String::new(),
    };
    (
        key,
        ApiKey {
            id,
            key_hash,
            key_prefix,
            name,
            workspace_id: request.workspace_id,
            created_by_user_id: request.created_by_user_id,
            created_at: now,
            expires_at: request.expires_at,
            last_used_at: None,
            is_active: true,
            spend_limit: None,
        },
    )
}

/// A new key as it is answered, the only time that the key itself is shown.
pub fn create_with_key(key: String, stored: ApiKey) -> (r: ApiKeyResponse)
    ensures
        r.id == stored.id,
        r.key == key,
        r.name == stored.name,
        r.created_at == stored.created_at,
        r.expires_at == stored.expires_at,
{
    ApiKeyResponse {
        id: stored.id,
        key,
        name: stored.name,
        created_at: stored.created_at,
        expires_at: stored.expires_at,
    }
}

/// A key is its prefix and the digits of its identifier; the first ten
/// characters of it are shown, or all of a shorter one.
pub proof fn law_keys_show_their_beginning(id: Uuid, key: Seq<char>, i: int)
    ensures
        key_of(id).len() == 35,
        key_of(id).take(3) == "sk_"@,
        key_of(id).skip(3) == crate::ids::simple(id),
        key.len() <= 10 ==> shown_part(key) == key,
        key.len() > 10 ==> shown_part(key).len() == 10,
        0 <= i < shown_part(key).len() ==> shown_part(key)[i] == key[i],
{
    reveal_strlit("sk_");
    assert("sk_"@.len() == 3);
    assert(key_of(id).take(3) =~= "sk_"@);
    assert(key_of(id).skip(3) =~= crate::ids::simple(id));
    if key.len() <= 10 {
        assert(shown_part(key) =~= key);
    }
}

/// A key has the name that is asked for, or an empty one.
pub proof fn law_keys_have_the_requested_name(request: CreateApiKeyRequest)
    ensures
        request.name matches Some(name) ==> requested_name(request) == name@,
        request.name is None ==> requested_name(request).len() == 0,
{
}

} // verus!

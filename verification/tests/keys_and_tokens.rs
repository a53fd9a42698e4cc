use database::digest::hash_text;
use database::error::RepositoryError;
use database::ids::Uuid;
use database::repositories::admin_access_token::{
    create as create_admin_token, generate_admin_access_token, hash_admin_access_token, revoke,
    validate, NewAdminAccessToken,
};
use database::repositories::aml::{db_risk_level, AmlRiskLevel};
use database::repositories::api_key::{
    create, create_with_key, generate_api_key, hash_api_key, CreateApiKeyRequest,
};
use database::repositories::api_key_model_affinity::{
    advisory_lock_key, bind, choose_provider, lock_from_digest, release, BindStep,
};
use database::repositories::near_nonce::{cleanup_cutoff, consume_nonce};
use database::repositories::oauth_state::create as begin_sign_in;
use database::repositories::organization_reporting_token::{
    revoke_token, token_name, OrganizationReportingTokenRow,
};
use database::time::Timestamp;
use sha2::{Digest, Sha256};

const NOW: Timestamp = Timestamp {
    seconds: 1_700_000_000,
    nanos: 999_999_999,
};

#[test]
fn hashes_are_written_in_hexadecimal() {
    assert_eq!(
        hash_text("abc"),
        "ba7816bf8f01cfea414140de5dae2223b00361a396177a9cb410ff61f20015ad"
    );
    assert_eq!(hash_api_key("abc"), hash_admin_access_token("abc"));
}

#[test]
fn keys_are_shown_in_part_and_stored_as_hashes() {
    let request = CreateApiKeyRequest {
        name: None,
        workspace_id: Uuid { value: 2 },
        created_by_user_id: Uuid { value: 3 },
        expires_at: None,
    };
    let (key, stored) = create(request, Uuid { value: 1 }, Uuid { value: 0xabc }, NOW);
    assert_eq!(key, "sk_00000000000000000000000000000abc");
    assert_eq!(stored.key_prefix, "sk_0000000");
    assert_eq!(stored.key_hash, hash_text(&key));
    assert_eq!(stored.name, "");
    assert!(stored.is_active);
    let response = create_with_key(key.clone(), stored);
    assert_eq!(response.key, key);
    let drawn = generate_api_key();
    assert_eq!(drawn.len(), 35);
    assert!(drawn.starts_with("sk_"));
    assert_ne!(drawn, generate_api_key());
}

#[test]
fn administrators_get_tokens() {
    let (stored, token) = create_admin_token(
        NewAdminAccessToken {
            created_by_user_id: Uuid { value: 1 },
            name: "n".to_string(),
            creation_reason: "r".to_string(),
            expires_at: NOW,
            user_agent: None,
        },
        Uuid { value: 2 },
        Uuid { value: 0 },
        NOW,
    );
    assert_eq!(token, "adm_00000000000000000000000000000000");
    assert_eq!(stored.token_hash, hash_text(&token));
    assert_eq!(stored.last_used_at, None);
    assert_eq!(validate(Some(stored), NOW).unwrap().last_used_at, Some(NOW));
    assert!(validate(None, NOW).is_none());
    assert!(generate_admin_access_token().starts_with("adm_"));
    assert!(revoke(1) && !revoke(0));
}

#[test]
fn locks_come_from_the_hash_of_key_and_model() {
    let id = Uuid {
        value: 0x0011_2233_4455_6677_8899_aabb_ccdd_eeff,
    };
    let mut hasher = Sha256::new();
    hasher.update(id.value.to_be_bytes());
    hasher.update([0]);
    hasher.update("modèle".as_bytes());
    let digest = hasher.finalize();
    let mut bytes = [0_u8; 8];
    bytes.copy_from_slice(&digest[..8]);
    assert_eq!(
        advisory_lock_key(id, "modèle"),
        i64::from_be_bytes(bytes) & i64::MAX
    );
    assert_eq!(lock_from_digest(&[0xff; 32]), i64::MAX);
    assert_eq!(lock_from_digest(&[0x80; 32]), 0x0080_8080_8080_8080);
}

#[test]
fn keys_stay_with_their_provider() {
    assert!(matches!(bind(Some("u".to_string())), BindStep::Use(url) if url == "u"));
    assert!(matches!(bind(None), BindStep::Select));
    let binding = choose_provider(&Some("u".to_string()), NOW, 60, 1)
        .unwrap()
        .unwrap();
    assert_eq!(
        binding.expires_at,
        Timestamp {
            seconds: NOW.seconds + 61,
            nanos: 0
        }
    );
    assert!(choose_provider(&None, NOW, u64::MAX, 0).unwrap().is_none());
    assert_eq!(
        choose_provider(&Some("u".to_string()), NOW, u64::MAX, 0).unwrap_err(),
        "Invalid affinity TTL"
    );
    assert!(chrono::Duration::from_std(std::time::Duration::new(
        9_223_372_036_854_775,
        807_000_000
    ))
    .is_ok());
    assert!(chrono::Duration::from_std(std::time::Duration::new(
        9_223_372_036_854_775,
        807_000_001
    ))
    .is_err());
    assert_eq!(release(Ok(None), true), Ok(None));
    assert_eq!(
        release(Ok(None), false),
        Err("Failed to release api key model affinity advisory lock".to_string())
    );
    assert_eq!(
        release(Err("first".to_string()), false),
        Err("first".to_string())
    );
}

#[test]
fn sign_ins_and_nonces_lapse_after_ten_minutes() {
    let state = begin_sign_in("s".to_string(), "p".to_string(), None, None, NOW);
    assert_eq!(state.expires_at.seconds, NOW.seconds + 600);
    assert_eq!(state.expires_at.nanos, NOW.nanos);
    assert_eq!(cleanup_cutoff(NOW).seconds, NOW.seconds - 600);
    assert!(consume_nonce(1));
    assert!(!consume_nonce(0));
}

#[test]
fn risks_are_named() {
    assert_eq!(db_risk_level("LOW"), AmlRiskLevel::Low);
    assert_eq!(db_risk_level("MEDIUM"), AmlRiskLevel::Medium);
    assert_eq!(db_risk_level("HIGH"), AmlRiskLevel::High);
    assert_eq!(db_risk_level("low"), AmlRiskLevel::Unknown);
}

#[test]
fn reporting_tokens_need_a_name() {
    assert_eq!(token_name("  monthly \n").unwrap(), "monthly");
    assert!(matches!(
        token_name("\t "),
        Err(RepositoryError::ValidationFailed(m)) if m == "reporting token name cannot be empty"
    ));
    let row = OrganizationReportingTokenRow {
        id: Uuid { value: 1 },
        organization_id: Uuid { value: 2 },
        name: "n".to_string(),
        token_prefix: "p".to_string(),
        created_by_user_id: Uuid { value: 3 },
        created_at: NOW,
        expires_at: None,
        last_used_at: Some(NOW),
        revoked_at: None,
        revoked_by_user_id: None,
    };
    let token = row.clone().into_service_token("usage:read");
    assert_eq!(token.scope, "usage:read");
    assert_eq!(token.name, "n");
    let validated = row.into_validated_token("usage:read");
    assert_eq!(validated.last_used_at, Some(NOW));
    assert!(revoke_token(1) && !revoke_token(0));
}

#[test]
fn keys_and_tokens_hold_identifiers_of_version_four() {
    for (text, start) in [(generate_api_key(), "sk_"), (generate_admin_access_token(), "adm_")] {
        let digits = text.strip_prefix(start).unwrap();
        assert_eq!(digits.len(), 32);
        assert_eq!(&digits[12..13], "4");
        assert!("89ab".contains(&digits[16..17]));
    }
}

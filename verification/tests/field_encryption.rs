use database::field_encryption::{
    decrypt, decrypt_if_encrypted, decrypt_if_encrypted_with_key_id, decrypt_json_if_encrypted,
    decrypt_with_key_id, encrypt, encrypt_json, encrypt_with_key_id, encrypt_with_nonce, is_envelope,
    nonce_from_bytes, parse_key, text_from_message, validate_key_id, EncryptionError, MARKER,
};
use database::ids::Uuid;
use database::json::JsonText;
use serde_json::Value;

#[test]
fn parse_key_accepts_32_bytes_and_rejects_invalid_inputs() {
    assert_eq!(parse_key(&"07".repeat(32)).unwrap(), [7; 32]);
    assert!(parse_key("not-hex").is_err());
    assert!(parse_key(&"07".repeat(31)).is_err());
    assert!(parse_key(&"07".repeat(33)).is_err());
}

#[test]
fn key_id_validation_rejects_empty_oversized_and_unsafe_values() {
    assert!(validate_key_id("db-2026.08_v1").is_ok());
    assert!(validate_key_id("").is_err());
    assert!(validate_key_id(&"a".repeat(65)).is_err());
    assert!(validate_key_id("db key").is_err());
}

#[test]
fn envelope_round_trips_and_authenticates_context() {
    let key = [7; 32];
    let id = Uuid::new_v4();
    let encrypted = encrypt(&key, "files", "filename", id, "private.txt").unwrap();

    assert!(!encrypted.contains("private.txt"));
    assert_eq!(
        decrypt(&key, "files", "filename", id, &encrypted).unwrap(),
        "private.txt"
    );
    assert!(decrypt(&key, "files", "storage_key", id, &encrypted).is_err());
}

#[test]
fn envelope_rejects_an_unexpected_key_id() {
    let encoded = encrypt(&[7; 32], "files", "filename", Uuid::nil(), "secret").unwrap();
    let mut value: Value = serde_json::from_str(&encoded).unwrap();
    value["key_id"] = Value::String("db-v2".to_string());
    assert!(decrypt(
        &[7; 32],
        "files",
        "filename",
        Uuid::nil(),
        &value.to_string()
    )
    .is_err());
}

#[test]
fn plaintext_remains_readable_during_rollout() {
    assert_eq!(
        decrypt_if_encrypted(
            &[7; 32],
            "files",
            "filename",
            Uuid::nil(),
            "legacy.txt".into()
        )
        .unwrap(),
        "legacy.txt"
    );
}

#[test]
fn user_json_with_marker_is_not_treated_as_an_envelope() {
    let id = Uuid::new_v4();
    let mut object = serde_json::Map::new();
    object.insert(MARKER.to_string(), Value::Bool(true));
    object.insert("user".to_string(), Value::String("value".to_string()));
    let text = Value::Object(object).to_string();
    assert_eq!(
        decrypt_if_encrypted(&[7; 32], "files", "filename", id, text.clone()).unwrap(),
        text
    );

    let json = JsonText::parse(&text).unwrap();
    assert!(!is_envelope(&json));
    assert_eq!(
        decrypt_json_if_encrypted(
            &[7; 32],
            "responses",
            "metadata",
            id,
            JsonText::parse(&text).unwrap()
        )
        .unwrap()
        .text,
        json.text
    );
}

#[test]
fn json_envelope_round_trips_and_legacy_json_remains_readable() {
    let key = [9; 32];
    let id = Uuid::new_v4();
    let source = r#"{"token": "secret", "nested": [1, 2, 3]}"#;
    let value = JsonText::parse(source).unwrap();
    let expected: Value = serde_json::from_str(source).unwrap();

    let encrypted = encrypt_json(&key, "mcp_connectors", "auth_config", id, &value).unwrap();
    let envelope: Value = serde_json::from_str(&encrypted.text).unwrap();
    assert_eq!(envelope[MARKER], Value::Bool(true));
    assert!(!encrypted.text.contains("secret"));
    assert!(is_envelope(&encrypted));
    let decrypted =
        decrypt_json_if_encrypted(&key, "mcp_connectors", "auth_config", id, encrypted).unwrap();
    assert_eq!(
        serde_json::from_str::<Value>(&decrypted.text).unwrap(),
        expected
    );
    let legacy =
        decrypt_json_if_encrypted(&key, "mcp_connectors", "auth_config", id, value).unwrap();
    assert_eq!(
        serde_json::from_str::<Value>(&legacy.text).unwrap(),
        expected
    );
}

#[test]
fn envelopes_of_one_text_differ_and_are_bound_to_their_place() {
    let key = [1; 32];
    let id = Uuid { value: 5 };
    let first = encrypt_with_key_id(&key, "k1", "t", "c", id, "same").unwrap();
    let second = encrypt_with_key_id(&key, "k1", "t", "c", id, "same").unwrap();
    assert_ne!(first, second);
    assert_eq!(
        decrypt_with_key_id(&key, "k1", "t", "c", id, &first).unwrap(),
        "same"
    );
    assert!(matches!(
        decrypt_with_key_id(&key, "k2", "t", "c", id, &first),
        Err(EncryptionError::UnsupportedKeyId)
    ));
    assert!(matches!(
        decrypt_with_key_id(&key, "k1", "t", "c", Uuid { value: 6 }, &first),
        Err(EncryptionError::AuthenticationFailed)
    ));
    assert!(matches!(
        decrypt_with_key_id(&[2; 32], "k1", "t", "c", id, &first),
        Err(EncryptionError::AuthenticationFailed)
    ));
    assert_eq!(
        decrypt_if_encrypted_with_key_id(&key, "k1", "t", "c", id, first).unwrap(),
        "same"
    );
}

#[test]
fn each_fault_of_an_envelope_is_told() {
    let key = [3; 32];
    let id = Uuid::nil();
    let encoded = encrypt(&key, "t", "c", id, "text").unwrap();
    let good: Value = serde_json::from_str(&encoded).unwrap();
    let marker = MARKER;
    let changed = |name: &str, value: Option<Value>| {
        let mut object = good.as_object().unwrap().clone();
        match value {
            Some(value) => {
                object.insert(name.to_string(), value);
            }
            None => {
                object.remove(name);
            }
        }
        decrypt(&key, "t", "c", id, &Value::Object(object).to_string()).unwrap_err()
    };
    let text = |value: &str| Some(Value::String(value.to_string()));
    assert!(matches!(
        decrypt(&key, "t", "c", id, "{").unwrap_err(),
        EncryptionError::InvalidJson
    ));
    assert!(matches!(changed(&marker, None), EncryptionError::MissingMarker));
    assert!(matches!(
        changed("version", text("2")),
        EncryptionError::UnsupportedVersion
    ));
    assert!(matches!(
        changed("alg", text("rot13")),
        EncryptionError::UnsupportedAlgorithm
    ));
    assert!(matches!(
        changed("key_id", None),
        EncryptionError::UnsupportedKeyId
    ));
    assert!(matches!(changed("nonce", None), EncryptionError::MissingNonce));
    assert!(matches!(
        changed("nonce", text("***")),
        EncryptionError::InvalidBase64
    ));
    assert!(matches!(
        changed("nonce", text("AAAA")),
        EncryptionError::InvalidNonceLength
    ));
    assert!(matches!(
        changed("ciphertext", None),
        EncryptionError::MissingCiphertext
    ));
    assert!(matches!(
        changed("ciphertext", text("AAAA")),
        EncryptionError::AuthenticationFailed
    ));
    assert!(matches!(
        encrypt_with_key_id(&key, "bad id", "t", "c", id, "text"),
        Err(EncryptionError::InvalidKeyId)
    ));
    assert!(matches!(parse_key("zz"), Err(EncryptionError::KeyNotHex)));
    assert!(matches!(parse_key("0707"), Err(EncryptionError::KeyLength(2))));
    assert!(matches!(
        text_from_message(Some(vec![0xff])),
        Err(EncryptionError::InvalidText)
    ));
    assert_eq!(text_from_message(Some(vec![104, 105])).unwrap(), "hi");
    assert_eq!(nonce_from_bytes(Some(vec![4; 12])).unwrap(), [4; 12]);
}

#[test]
fn a_given_nonce_fixes_the_envelope() {
    let key = [7; 32];
    let id = Uuid::nil();
    let seal = |nonce: &[u8; 12], plain: &str| {
        encrypt_with_nonce(&key, "db-v1", "files", "filename", id, plain, nonce)
    };
    let first = seal(&[0; 12], "private.txt").unwrap();
    assert_eq!(seal(&[0; 12], "private.txt").unwrap(), first);
    assert_ne!(seal(&[1; 12], "private.txt").unwrap(), first);
    assert_ne!(seal(&[0; 12], "private.md").unwrap(), first);
    let value: Value = serde_json::from_str(&first).unwrap();
    assert_eq!(value[MARKER], Value::Bool(true));
    assert_eq!(value["nonce"], Value::String("AAAAAAAAAAAAAAAA".to_string()));
    assert_eq!(value["key_id"], Value::String("db-v1".to_string()));
    assert_eq!(
        decrypt(&key, "files", "filename", id, &first).unwrap(),
        "private.txt"
    );
    assert_eq!(
        encrypt_with_nonce(&key, "no key", "files", "filename", id, "x", &[0; 12]),
        Err(EncryptionError::InvalidKeyId)
    );
}

use database::repositories::attestation::{
    insert_statement, last_signature_per_algo, recognized_kind, signature_not_found,
    AttestationError, ChatSignature,
};

fn signature(algo: &str, text: &str) -> ChatSignature {
    ChatSignature {
        text: text.to_string(),
        signature: format!("sig-{text}"),
        signing_address: "addr".to_string(),
        signing_algo: algo.to_string(),
        signature_kind: None,
    }
}

#[test]
fn distinct_algorithms_are_kept_in_order() {
    let out = last_signature_per_algo(vec![signature("ecdsa", "a"), signature("ed25519", "b")]);
    assert_eq!(out.len(), 2);
    assert_eq!(out[0].signing_algo, "ecdsa");
    assert_eq!(out[1].signing_algo, "ed25519");
}

#[test]
fn duplicate_algorithm_keeps_the_last_signature() {
    let out = last_signature_per_algo(vec![
        signature("ecdsa", "first"),
        signature("ed25519", "b"),
        signature("ecdsa", "second"),
    ]);
    assert_eq!(out.len(), 2);
    assert_eq!(out[0].signing_algo, "ecdsa");
    assert_eq!(out[0].text, "second");
    assert_eq!(out[1].signing_algo, "ed25519");
}

#[test]
fn empty_input_stays_empty() {
    assert!(last_signature_per_algo(Vec::new()).is_empty());
}

#[test]
fn placeholders_are_numbered_through() {
    let one = insert_statement(1);
    let two = insert_statement(2);
    assert!(one.contains("$1") && two.starts_with("INSERT INTO"));
    let highest = |sql: &str| {
        sql.split('$')
            .skip(1)
            .map(|rest| {
                rest.chars()
                    .take_while(|c| c.is_ascii_digit())
                    .collect::<String>()
                    .parse::<u32>()
                    .unwrap()
            })
            .max()
            .unwrap()
    };
    assert_eq!(highest(&one), 6);
    assert_eq!(highest(&two), 12);
}

#[test]
fn unknown_kinds_are_dropped() {
    let known = vec!["response".to_string()];
    assert_eq!(
        recognized_kind(Some("response".to_string()), &known).as_deref(),
        Some("response")
    );
    assert_eq!(recognized_kind(Some("other".to_string()), &known), None);
    assert_eq!(recognized_kind(None, &known), None);
    assert!(matches!(
        signature_not_found("chat", "ecdsa"),
        AttestationError::SignatureNotFound(message) if message == "chat:ecdsa"
    ));
}

#[test]
fn only_the_last_signature_of_each_algorithm_is_kept() {
    let given = vec![
        signature("a", "1"),
        signature("b", "2"),
        signature("a", "3"),
        signature("c", "4"),
        signature("b", "5"),
    ];
    let kept: Vec<String> = last_signature_per_algo(given)
        .into_iter()
        .map(|kept| kept.text)
        .collect();
    assert_eq!(kept, ["3", "5", "4"]);
}

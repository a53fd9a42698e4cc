use database::ids::Uuid;
use database::repositories::conversation::{
    clone_conversation, copy_item, copy_links, find_copy, fresh_ids, marked_at, plain_ids,
    CloneAction, CloneEvent, CloneState, ConversationId, NextResponses, ResponseItem,
    ResponseLinks,
};
use database::time::Timestamp;

const NOW: Timestamp = Timestamp {
    seconds: 1_000,
    nanos: 5,
};

#[test]
fn test_batch_get_by_ids_empty_vector() {
    let empty_ids: Vec<ConversationId> = vec![];
    assert_eq!(
        plain_ids(&empty_ids).len(),
        0,
        "Empty vector should have length 0"
    );
}

#[test]
fn test_batch_get_by_ids_creates_uuid_array() {
    let id1 = ConversationId(Uuid::nil());
    let id2 = ConversationId(Uuid::new_v4());
    let id3 = ConversationId(Uuid::new_v4());

    let ids = vec![id1, id2, id3];
    let uuid_ids: Vec<Uuid> = plain_ids(&ids);

    assert_eq!(uuid_ids.len(), 3, "Should have 3 UUIDs");
    assert_eq!(uuid_ids[0], Uuid::nil(), "First UUID should be nil");
    assert_eq!(uuid_ids[1], id2.0, "Second UUID should match");
    assert_eq!(uuid_ids[2], id3.0, "Third UUID should match");
}

#[test]
fn test_conversation_id_ordering() {
    let id1 = ConversationId(Uuid::nil());
    let id2 = ConversationId(Uuid::new_v4());
    let id3 = ConversationId(Uuid::new_v4());

    let ids = [id1, id2, id3];

    assert_eq!(ids[0].0, id1.0, "First ID UUID should match");
    assert_eq!(ids[1].0, id2.0, "Second ID UUID should match");
    assert_eq!(ids[2].0, id3.0, "Third ID UUID should match");
}

#[test]
fn links_point_to_copies() {
    let originals = vec![Uuid { value: 1 }, Uuid { value: 2 }];
    let fresh = vec![Uuid { value: 11 }, Uuid { value: 12 }];
    assert_eq!(find_copy(&originals, &fresh, Uuid { value: 2 }), Some(Uuid { value: 12 }));
    assert_eq!(find_copy(&originals, &fresh, Uuid { value: 3 }), None);
    let links = ResponseLinks {
        previous_response_id: Some(Uuid { value: 1 }),
        next_response_ids: Some(format!(
            "[\"{}\", \"{}\"]",
            Uuid { value: 2 }.to_text(),
            Uuid { value: 9 }.to_text()
        )),
    };
    let copied = copy_links(&links, &originals, &fresh);
    assert_eq!(copied.previous_response_id, Some(Uuid { value: 11 }));
    assert!(matches!(
        copied.next_response_ids,
        NextResponses::Copies(list) if list.contains(&Uuid { value: 12 }.to_text())
    ));
    assert_eq!(marked_at(true, NOW), Some(NOW));
    assert_eq!(marked_at(false, NOW), None);
}

#[test]
fn items_follow_their_response() {
    let originals = vec![Uuid { value: 1 }];
    let fresh = vec![Uuid { value: 11 }];
    let item = ResponseItem {
        response_id: Uuid { value: 1 },
        item: "{\"type\": \"message\", \"id\": \"msg_1\"}".to_string(),
        created_at: NOW,
    };
    let copy = copy_item(&item, Uuid { value: 21 }, &originals, &fresh).unwrap();
    assert_eq!(copy.id, Uuid { value: 21 });
    assert_eq!(copy.response_id, Uuid { value: 11 });
    assert_eq!(copy.created_at, NOW);
    assert_eq!(
        copy.item,
        "{\"id\":\"msg_00000000000000000000000000000015\",\"type\":\"message\"}"
    );
}

fn copied(text: &str) -> Option<String> {
    let item = ResponseItem {
        response_id: Uuid { value: 1 },
        item: text.to_string(),
        created_at: NOW,
    };
    copy_item(&item, Uuid { value: 10 }, &Vec::new(), &Vec::new()).map(|copy| copy.item)
}

#[test]
fn only_objects_get_a_message_identifier() {
    let id = "msg_0000000000000000000000000000000a";
    assert_eq!(copied("{}"), Some(format!("{{\"id\":\"{id}\"}}")));
    assert_eq!(
        copied("{\"n\": [1, {\"id\": 2}], \"id\": 7}"),
        Some(format!("{{\"id\":\"{id}\",\"n\":[1,{{\"id\":2}}]}}"))
    );
    assert_eq!(copied("[1, 2]"), Some("[1,2]".to_string()));
    assert_eq!(copied("\"id\""), Some("\"id\"".to_string()));
    assert_eq!(copied("{"), None);
}

#[test]
fn items_are_copied_one_by_one_or_not_at_all() {
    let item = |text: &str| ResponseItem {
        response_id: Uuid { value: 1 },
        item: text.to_string(),
        created_at: NOW,
    };
    let reading = || CloneState::ReadingItems {
        originals: vec![Uuid { value: 1 }],
        fresh: vec![Uuid { value: 11 }],
    };
    let fresh = vec![Uuid { value: 21 }, Uuid { value: 22 }];
    let (state, action) = clone_conversation(
        reading(),
        CloneEvent::ItemsRead {
            items: vec![item("1"), item("{}")],
            fresh: fresh.clone(),
        },
    );
    assert!(
        matches!(action, CloneAction::WriteItem { position: 0, copy } if copy.item == "1" && copy.response_id == Uuid { value: 11 })
    );
    let (state, action) = clone_conversation(state, CloneEvent::Written);
    assert!(
        matches!(action, CloneAction::WriteItem { position: 1, copy } if copy.item == "{\"id\":\"msg_00000000000000000000000000000016\"}")
    );
    let (_, action) = clone_conversation(state, CloneEvent::Written);
    assert!(matches!(action, CloneAction::Commit));
    let (_, action) = clone_conversation(
        reading(),
        CloneEvent::ItemsRead {
            items: vec![item("1"), item("{")],
            fresh,
        },
    );
    assert!(matches!(action, CloneAction::RefuseItem { position: 1 }));
}

#[test]
fn copying_a_conversation_runs_to_its_end() {
    let (state, action) = clone_conversation(
        CloneState::CopyingConversation,
        CloneEvent::ConversationCopied(true),
    );
    assert!(matches!(action, CloneAction::ReadResponses));
    let (state, action) = clone_conversation(
        state,
        CloneEvent::ResponsesRead {
            originals: vec![Uuid { value: 1 }],
            fresh: vec![Uuid { value: 11 }],
        },
    );
    assert!(matches!(action, CloneAction::CopyResponse { copy, .. } if copy == Uuid { value: 11 }));
    let (state, action) = clone_conversation(state, CloneEvent::Written);
    assert!(
        matches!(action, CloneAction::ReadLinks { original } if original == Uuid { value: 1 })
    );
    let (state, action) = clone_conversation(state, CloneEvent::LinksRead(None));
    assert!(matches!(action, CloneAction::ReadItems));
    let (state, action) = clone_conversation(
        state,
        CloneEvent::ItemsRead {
            items: Vec::new(),
            fresh: Vec::new(),
        },
    );
    assert!(matches!(action, CloneAction::Commit));
    let (state, action) = clone_conversation(state, CloneEvent::Committed);
    assert!(matches!(action, CloneAction::ReadCopy));
    let (_, action) = clone_conversation(state, CloneEvent::CopyRead);
    assert!(matches!(action, CloneAction::Finish));
    let (_, action) = clone_conversation(
        CloneState::CopyingConversation,
        CloneEvent::ConversationCopied(false),
    );
    assert!(matches!(action, CloneAction::GiveUp));
    let ids = fresh_ids(3);
    assert_eq!(ids.len(), 3);
    assert_ne!(ids[0], ids[1]);
    for id in ids {
        let text = id.to_text();
        assert_eq!(&text[14..15], "4");
        assert!("89ab".contains(&text[19..20]));
    }
}

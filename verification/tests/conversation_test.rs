use mcprs::conversation::{Conversation, ConversationManager, Metadata};

#[test]
fn test_create_and_get_conversation() {
    let mut manager = ConversationManager::new(24);

    let conversation = manager.create_conversation().unwrap();
    let id = conversation.id.clone();

    let retrieved = manager.get_conversation(&id).unwrap();
    assert_eq!(retrieved.id, id);
    assert!(retrieved.messages.is_empty());
}

#[test]
fn test_add_message_to_conversation() {
    let mut manager = ConversationManager::new(24);
    let conversation = manager.create_conversation().unwrap();
    let id = conversation.id.clone();

    manager.add_message_to_conversation(&id, "user", "Pergunta 1").unwrap();
    manager.add_message_to_conversation(&id, "assistant", "Resposta 1").unwrap();

    let retrieved = manager.get_conversation(&id).unwrap();
    assert_eq!(retrieved.messages.len(), 2);
    assert_eq!(retrieved.messages[0].role, "user");
    assert_eq!(retrieved.messages[0].content, "Pergunta 1");
    assert_eq!(retrieved.messages[1].role, "assistant");
    assert_eq!(retrieved.messages[1].content, "Resposta 1");
}

#[test]
fn test_conversation_metadata() {
    let mut manager = ConversationManager::new(24);
    let mut conversation = manager.create_conversation().unwrap();

    conversation.set_metadata("language", "pt-br");
    conversation.set_metadata("model", "gpt-4");

    manager.update_conversation(conversation.clone()).unwrap();

    let retrieved = manager.get_conversation(&conversation.id).unwrap();
    assert_eq!(retrieved.metadata.get("language").unwrap(), "pt-br");
    assert_eq!(retrieved.metadata.get("model").unwrap(), "gpt-4");
}

#[test]
fn test_add_message_nonexistent_conversation() {
    let mut manager = ConversationManager::new(24);

    let result = manager.add_message_to_conversation("id-inexistente", "user", "Olá");
    assert!(result.is_err());
}

#[test]
fn test_cleanup_old_conversations() {
    let mut manager = ConversationManager::new(0);

    let conv1 = manager.create_conversation().unwrap();
    let _conv2 = manager.create_conversation().unwrap();
    let _conv3 = manager.create_conversation().unwrap();

    let started = std::time::Instant::now();
    while started.elapsed() < std::time::Duration::from_millis(10) {}

    let removed = manager.cleanup_old_conversations();

    assert_eq!(removed, 3);
    assert!(manager.get_conversation(&conv1.id).is_none());
}

const HOUR: u128 = 3_600_000_000_000;

#[test]
fn two_messages_come_back_in_order_with_times_that_do_not_go_back() {
    let mut manager = ConversationManager::new(24);
    let id = manager.create_conversation().unwrap().id;
    manager.add_message_to_conversation(&id, "user", "hi").unwrap();
    manager.add_message_to_conversation(&id, "assistant", "hello").unwrap();

    let found = manager.get_conversation(&id).unwrap();
    assert_eq!(found.messages.len(), 2);
    assert_eq!(found.messages[0].role, "user");
    assert_eq!(found.messages[0].content, "hi");
    assert_eq!(found.messages[1].role, "assistant");
    assert_eq!(found.messages[1].content, "hello");
    assert!(found.created_at <= found.messages[0].timestamp);
    assert!(found.messages[0].timestamp <= found.messages[1].timestamp);
    assert!(found.messages[1].timestamp <= found.updated_at);
}

#[test]
fn a_fresh_conversation_is_empty_and_has_a_uuid() {
    let c = Conversation::new();
    assert!(c.messages.is_empty());
    assert!(c.get_messages().is_empty());
    assert!(c.metadata.is_empty());
    assert_eq!(c.created_at, c.updated_at);
    assert!(c.created_at > 1_600_000_000_000_000_000);
    assert_eq!(c.id.len(), 36);
    for (i, ch) in c.id.chars().enumerate() {
        if i == 8 || i == 13 || i == 18 || i == 23 {
            assert_eq!(ch, '-');
        } else {
            assert!(ch.is_ascii_digit() || ('a'..='f').contains(&ch));
        }
    }
    assert_ne!(Conversation::new().id, c.id);
    assert_ne!(Conversation::default().id, c.id);
}

#[test]
fn a_message_bears_the_time_at_which_it_was_added() {
    let mut c = Conversation::with_id("c1".to_string(), 100);
    assert_eq!(c.created_at, 100);
    assert_eq!(c.updated_at, 100);
    c.add_message_at("user", "a", 250);
    assert_eq!(c.messages[0].timestamp, 250);
    assert_eq!(c.updated_at, 250);
    assert_eq!(c.created_at, 100);
    assert_eq!(c.get_messages().len(), 1);
    assert_eq!(c.get_messages()[0].content, "a");
}

#[test]
fn a_clock_that_steps_back_does_not_move_a_conversation_back() {
    let mut c = Conversation::with_id("c1".to_string(), 1_000);
    c.add_message_at("user", "first", 2_000);
    c.add_message_at("user", "second", 1_500);
    assert_eq!(c.messages[1].timestamp, 2_000);
    assert_eq!(c.updated_at, 2_000);
    c.add_message_at("user", "third", 0);
    assert_eq!(c.messages[2].timestamp, 2_000);
    c.add_message_at("user", "fourth", 2_000);
    assert_eq!(c.updated_at, 2_000);
    c.add_message_at("user", "fifth", 2_001);
    assert_eq!(c.messages[4].timestamp, 2_001);
    assert_eq!(c.updated_at, 2_001);
}

#[test]
fn adding_a_message_now_moves_the_last_update() {
    let mut c = Conversation::new();
    let before = c.updated_at;
    c.add_message("user", "Olá!");
    c.add_message("assistant", "Como posso ajudar?");
    assert_eq!(c.messages.len(), 2);
    assert_eq!(c.messages[0].role, "user");
    assert!(c.updated_at >= before);
    assert_eq!(c.updated_at, c.messages[1].timestamp);
}

#[test]
fn metadata_keeps_the_last_value_of_a_key() {
    let mut c = Conversation::with_id("c1".to_string(), 5);
    c.set_metadata("language", "pt-br");
    c.set_metadata("model", "gpt-4");
    c.set_metadata("language", "en");
    assert_eq!(c.metadata.get("language").unwrap(), "en");
    assert_eq!(c.metadata.get("model").unwrap(), "gpt-4");
    assert!(c.metadata.get("missing").is_none());
    assert!(c.metadata.get("").is_none());
    assert_eq!(c.updated_at, 5);
}

#[test]
fn a_metadata_map_of_its_own() {
    let mut m = Metadata::new();
    assert!(m.is_empty());
    m.insert(String::new(), "empty key".to_string());
    assert!(!m.is_empty());
    assert_eq!(m.get("").unwrap(), "empty key");
    let copy = m.clone();
    m.insert(String::new(), "changed".to_string());
    assert_eq!(copy.get("").unwrap(), "empty key");
    assert_eq!(m.get("").unwrap(), "changed");
    m.insert("b".to_string(), "2".to_string());
    m.insert("a".to_string(), "1".to_string());
    m.insert("b".to_string(), "3".to_string());
    assert_eq!(
        m.pairs(),
        vec![
            (String::new(), "changed".to_string()),
            ("b".to_string(), "3".to_string()),
            ("a".to_string(), "1".to_string()),
        ]
    );
}

#[test]
fn a_copy_does_not_reach_the_store_until_it_is_written_back() {
    let mut manager = ConversationManager::new(1);
    let mut copy = manager.create_conversation_with("c1".to_string(), 10).unwrap();
    copy.add_message_at("user", "local", 20);
    copy.set_metadata("k", "v");
    let stored = manager.get_conversation("c1").unwrap();
    assert!(stored.messages.is_empty());
    assert!(stored.metadata.get("k").is_none());

    manager.update_conversation(copy).unwrap();
    let stored = manager.get_conversation("c1").unwrap();
    assert_eq!(stored.messages.len(), 1);
    assert_eq!(stored.metadata.get("k").unwrap(), "v");
    assert_eq!(manager.len(), 1);
}

#[test]
fn update_files_a_conversation_that_the_store_did_not_hold() {
    let mut manager = ConversationManager::new(1);
    assert_eq!(manager.len(), 0);
    manager.update_conversation(Conversation::with_id("new".to_string(), 1)).unwrap();
    manager.update_conversation(Conversation::with_id("other".to_string(), 2)).unwrap();
    manager.update_conversation(Conversation::with_id("new".to_string(), 3)).unwrap();
    assert_eq!(manager.len(), 2);
    assert_eq!(manager.get_conversation("new").unwrap().created_at, 3);
    assert_eq!(manager.get_conversation("other").unwrap().created_at, 2);
    assert!(manager.get_conversation("New").is_none());
}

#[test]
fn a_message_for_an_unknown_id_changes_nothing_and_names_the_id() {
    let mut manager = ConversationManager::new(24);
    manager.create_conversation_with("known".to_string(), 1).unwrap();
    let err = manager.add_message_to_conversation_at("id-inexistente", "user", "Olá", 2).unwrap_err();
    assert_eq!(err, "Conversa id-inexistente não encontrada");
    let err = manager.add_message_to_conversation("", "user", "Olá").unwrap_err();
    assert_eq!(err, "Conversa  não encontrada");
    assert_eq!(manager.len(), 1);
    assert!(manager.get_conversation("known").unwrap().messages.is_empty());
}

#[test]
fn every_one_of_many_appends_counts() {
    let mut manager = ConversationManager::new(24);
    manager.create_conversation_with("busy".to_string(), 0).unwrap();
    manager.create_conversation_with("idle".to_string(), 0).unwrap();
    for n in 0..200u128 {
        manager.add_message_to_conversation_at("busy", "user", &n.to_string(), n).unwrap();
    }
    let busy = manager.get_conversation("busy").unwrap();
    assert_eq!(busy.messages.len(), 200);
    for (n, message) in busy.messages.iter().enumerate() {
        assert_eq!(message.content, n.to_string());
    }
    assert_eq!(busy.updated_at, 199);
    assert!(manager.get_conversation("idle").unwrap().messages.is_empty());
}

#[test]
fn a_sweep_removes_what_is_older_than_the_retention_and_nothing_else() {
    let mut manager = ConversationManager::new(1);
    manager.create_conversation_with("old".to_string(), 0).unwrap();
    manager.create_conversation_with("edge".to_string(), 1_000).unwrap();
    manager.create_conversation_with("young".to_string(), 1_001).unwrap();
    manager.create_conversation_with("future".to_string(), 10 * HOUR).unwrap();

    let now = HOUR + 1_000;
    let removed = manager.cleanup_old_conversations_at(now);
    assert_eq!(removed, 1);
    assert!(manager.get_conversation("old").is_none());
    assert!(manager.get_conversation("edge").is_some());
    assert!(manager.get_conversation("young").is_some());
    assert!(manager.get_conversation("future").is_some());
    assert_eq!(manager.len(), 3);

    assert_eq!(manager.cleanup_old_conversations_at(now), 0);
    assert_eq!(manager.cleanup_old_conversations_at(now + 1), 1);
    assert!(manager.get_conversation("edge").is_none());
    assert_eq!(manager.cleanup_old_conversations_at(u128::MAX), 2);
    assert_eq!(manager.len(), 0);
    assert_eq!(manager.cleanup_old_conversations_at(u128::MAX), 0);
}

#[test]
fn age_counts_from_the_last_update_not_from_the_creation() {
    let mut manager = ConversationManager::new(1);
    manager.create_conversation_with("active".to_string(), 0).unwrap();
    manager.create_conversation_with("silent".to_string(), 0).unwrap();
    manager.add_message_to_conversation_at("active", "user", "still here", 5 * HOUR).unwrap();

    let removed = manager.cleanup_old_conversations_at(6 * HOUR);
    assert_eq!(removed, 1);
    assert!(manager.get_conversation("silent").is_none());
    let active = manager.get_conversation("active").unwrap();
    assert_eq!(active.created_at, 0);
    assert_eq!(active.messages.len(), 1);
}

#[test]
fn with_no_retention_a_conversation_lasts_until_time_moves() {
    let mut manager = ConversationManager::new(0);
    manager.create_conversation_with("c".to_string(), 500).unwrap();
    assert_eq!(manager.cleanup_old_conversations_at(499), 0);
    assert_eq!(manager.cleanup_old_conversations_at(500), 0);
    assert_eq!(manager.cleanup_old_conversations_at(501), 1);
}

#[test]
fn the_longest_retention_does_not_overflow() {
    let mut manager = ConversationManager::new(u64::MAX);
    manager.create_conversation_with("c".to_string(), 0).unwrap();
    assert_eq!(manager.cleanup_old_conversations_at(u64::MAX as u128 * HOUR), 0);
    assert_eq!(manager.cleanup_old_conversations_at(u64::MAX as u128 * HOUR + 1), 1);
}

#[test]
fn expiry_of_a_single_conversation() {
    let c = Conversation::with_id("c".to_string(), 1_000);
    assert!(!c.is_expired(0, 0));
    assert!(!c.is_expired(1_000, 0));
    assert!(c.is_expired(1_001, 0));
    assert!(!c.is_expired(1_100, 100));
    assert!(c.is_expired(1_101, 100));
}

#[test]
fn a_stale_copy_does_not_set_a_conversation_back_in_time() {
    let mut manager = ConversationManager::new(1);
    let stale = manager.create_conversation_with("c".to_string(), 100).unwrap();
    manager.add_message_to_conversation_at("c", "user", "later", 500).unwrap();
    assert_eq!(manager.get_conversation("c").unwrap().updated_at, 500);

    manager.update_conversation_at(stale, 200).unwrap();
    let stored = manager.get_conversation("c").unwrap();
    assert_eq!(stored.updated_at, 500);
    assert_eq!(stored.created_at, 100);
    assert!(stored.messages.is_empty());
}

#[test]
fn an_update_bears_the_latest_of_three_times() {
    let mut manager = ConversationManager::new(1);
    manager.update_conversation_at(Conversation::with_id("new".to_string(), 7), 3).unwrap();
    assert_eq!(manager.get_conversation("new").unwrap().updated_at, 7);
    assert_eq!(manager.get_conversation("new").unwrap().created_at, 7);

    manager.update_conversation_at(Conversation::with_id("new".to_string(), 5), 9).unwrap();
    let stored = manager.get_conversation("new").unwrap();
    assert_eq!(stored.updated_at, 9);
    assert_eq!(stored.created_at, 5);

    manager.update_conversation_at(Conversation::with_id("new".to_string(), 12), 10).unwrap();
    assert_eq!(manager.get_conversation("new").unwrap().updated_at, 12);

    manager.update_conversation_at(Conversation::with_id("new".to_string(), 1), 2).unwrap();
    let stored = manager.get_conversation("new").unwrap();
    assert_eq!(stored.updated_at, 12);
    assert_eq!(stored.created_at, 1);
}

#[test]
fn an_update_now_moves_the_last_update_forward() {
    let mut manager = ConversationManager::new(24);
    let mut copy = manager.create_conversation().unwrap();
    let created = copy.updated_at;
    copy.set_metadata("k", "v");
    let id = copy.id.clone();
    manager.update_conversation(copy).unwrap();
    let stored = manager.get_conversation(&id).unwrap();
    assert!(stored.updated_at >= created);
    assert_eq!(stored.created_at, created);
    assert_eq!(stored.metadata.get("k").unwrap(), "v");
}

#[test]
fn what_is_found_bears_the_id_that_was_asked_for() {
    let mut manager = ConversationManager::new(24);
    let created = manager.create_conversation().unwrap();
    assert_eq!(created.id.len(), 36);
    for id in ["a", "b", ""] {
        manager.create_conversation_with(id.to_string(), 1).unwrap();
    }
    for id in ["a", "b", "", created.id.as_str()] {
        assert_eq!(manager.get_conversation(id).unwrap().id, id);
    }
}

#[test]
fn creating_over_an_id_that_is_held_does_not_go_back_in_time_either() {
    let mut manager = ConversationManager::new(1);
    manager.create_conversation_with("c".to_string(), 100).unwrap();
    manager.add_message_to_conversation_at("c", "user", "hi", 300).unwrap();

    let again = manager.create_conversation_with("c".to_string(), 200).unwrap();
    assert!(again.messages.is_empty());
    assert_eq!(again.created_at, 200);
    assert_eq!(again.updated_at, 300);
    let stored = manager.get_conversation("c").unwrap();
    assert!(stored.messages.is_empty());
    assert_eq!(stored.created_at, 200);
    assert_eq!(stored.updated_at, 300);
    assert_eq!(manager.len(), 1);

    let fresh = manager.create_conversation_with("d".to_string(), 50).unwrap();
    assert_eq!(fresh.created_at, 50);
    assert_eq!(fresh.updated_at, 50);
}

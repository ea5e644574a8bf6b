use chat_relay::bus::{BroadcastBus, Delivery, BUS_CAPACITY};
use chat_relay::credentials::CredentialStore;
use chat_relay::errors::ChatError;
use chat_relay::history::HistoryLog;
use chat_relay::message::Message;
use chat_relay::server::ChatServer;
use chat_relay::session::{
    classify_control, handle_auth, handle_client_payload, ControlMessage, SessionState,
};

fn msg(sender: &str, content: &str, timestamp: i64) -> Message {
    Message { sender: sender.to_owned(), content: content.to_owned(), timestamp }
}

#[test]
fn distinct_registrations_all_succeed() {
    let mut store = CredentialStore::new();
    let names = ["alice", "bob", "carol", "dave"];
    for (i, name) in names.iter().enumerate() {
        let r = store.register(name.to_string(), format!("pw{}", i));
        assert_eq!(r, Ok(()));
    }
}

#[test]
fn duplicate_registration_fails_and_keeps_password() {
    let mut store = CredentialStore::new();
    assert_eq!(store.register("alice".to_owned(), "pw1".to_owned()), Ok(()));
    assert_eq!(
        store.register("alice".to_owned(), "pw2".to_owned()),
        Err(ChatError::AuthConflict)
    );
    // The stored password is still the first one.
    assert!(store.authenticate(&"alice".to_owned(), &"pw1".to_owned()));
    assert!(!store.authenticate(&"alice".to_owned(), &"pw2".to_owned()));
}

#[test]
fn login_succeeds_iff_registered_with_matching_password() {
    let mut store = CredentialStore::new();
    store.register("alice".to_owned(), "pw1".to_owned()).unwrap();
    assert!(store.authenticate(&"alice".to_owned(), &"pw1".to_owned()));
    assert!(!store.authenticate(&"alice".to_owned(), &"wrong".to_owned()));
    assert!(!store.authenticate(&"never".to_owned(), &"pw1".to_owned()));
    assert!(!store.authenticate(&"never".to_owned(), &"".to_owned()));
}

#[test]
fn empty_username_and_password_are_ordinary_keys() {
    let mut store = CredentialStore::new();
    assert_eq!(store.register("".to_owned(), "".to_owned()), Ok(()));
    assert!(store.authenticate(&"".to_owned(), &"".to_owned()));
    assert_eq!(
        store.register("".to_owned(), "other".to_owned()),
        Err(ChatError::AuthConflict)
    );
}

#[test]
fn history_snapshot_is_exact_and_ordered() {
    let mut log = HistoryLog::new();
    assert_eq!(log.len(), 0);
    assert_eq!(log.snapshot().len(), 0);
    log.append(msg("alice", "one", 1));
    log.append(msg("bob", "two", 2));
    log.append(msg("alice", "three", 3));
    let snap = log.snapshot();
    assert_eq!(snap.len(), 3);
    assert_eq!(snap[0].sender, "alice");
    assert_eq!(snap[0].content, "one");
    assert_eq!(snap[0].timestamp, 1);
    assert_eq!(snap[1].sender, "bob");
    assert_eq!(snap[1].content, "two");
    assert_eq!(snap[2].content, "three");
}

#[test]
fn message_appended_once_appears_once() {
    let mut log = HistoryLog::new();
    log.append(msg("alice", "unique", 7));
    log.append(msg("bob", "noise", 8));
    let snap = log.snapshot();
    let hits = snap
        .iter()
        .filter(|m| m.sender == "alice" && m.content == "unique" && m.timestamp == 7)
        .count();
    assert_eq!(hits, 1);
}

#[test]
fn subscription_sees_only_messages_published_after_it() {
    let mut bus = BroadcastBus::new(BUS_CAPACITY);
    bus.publish(msg("alice", "before", 1));
    let mut sub = bus.subscribe();
    assert!(matches!(bus.receive(&mut sub), Delivery::Empty));
    bus.publish(msg("bob", "after", 2));
    match bus.receive(&mut sub) {
        Delivery::Item(m) => {
            assert_eq!(m.sender, "bob");
            assert_eq!(m.content, "after");
            assert_eq!(m.timestamp, 2);
        }
        _ => panic!("expected the message published after subscribing"),
    }
    assert!(matches!(bus.receive(&mut sub), Delivery::Empty));
}

#[test]
fn fanout_reaches_every_subscriber_in_publish_order() {
    let mut bus = BroadcastBus::new(BUS_CAPACITY);
    let mut subs = vec![bus.subscribe(), bus.subscribe(), bus.subscribe()];
    bus.publish(msg("alice", "first", 1));
    bus.publish(msg("alice", "second", 2));
    for sub in subs.iter_mut() {
        match bus.receive(sub) {
            Delivery::Item(m) => assert_eq!(m.content, "first"),
            _ => panic!("every pacing subscriber observes the first message"),
        }
        match bus.receive(sub) {
            Delivery::Item(m) => assert_eq!(m.content, "second"),
            _ => panic!("every pacing subscriber observes the second message"),
        }
        assert!(matches!(bus.receive(sub), Delivery::Empty));
    }
}

#[test]
fn lagging_subscriber_drops_oldest_and_is_told_how_many() {
    let mut bus = BroadcastBus::new(3);
    let mut sub = bus.subscribe();
    for i in 0..5 {
        bus.publish(msg("alice", &format!("m{}", i), i));
    }
    // Five pending against a capacity of three: the two oldest are dropped.
    match bus.receive(&mut sub) {
        Delivery::Lagged(skipped) => assert_eq!(skipped, 2),
        _ => panic!("expected a lag notice"),
    }
    // Delivery resumes at the oldest retained message.
    match bus.receive(&mut sub) {
        Delivery::Item(m) => assert_eq!(m.content, "m2"),
        _ => panic!("expected the oldest retained message"),
    }
    match bus.receive(&mut sub) {
        Delivery::Item(m) => assert_eq!(m.content, "m3"),
        _ => panic!("expected delivery in publish order"),
    }
    match bus.receive(&mut sub) {
        Delivery::Item(m) => assert_eq!(m.content, "m4"),
        _ => panic!("expected delivery in publish order"),
    }
    assert!(matches!(bus.receive(&mut sub), Delivery::Empty));
}

#[test]
fn drain_yields_all_pending_in_publish_order() {
    let mut bus = BroadcastBus::new(BUS_CAPACITY);
    let mut sub = bus.subscribe();
    bus.publish(msg("alice", "one", 1));
    bus.publish(msg("bob", "two", 2));
    bus.publish(msg("alice", "three", 3));
    let (batch, skipped) = bus.drain(&mut sub);
    assert_eq!(skipped, 0);
    let contents: Vec<&str> = batch.iter().map(|m| m.content.as_str()).collect();
    assert_eq!(contents, vec!["one", "two", "three"]);
    let (batch, skipped) = bus.drain(&mut sub);
    assert_eq!(skipped, 0);
    assert!(batch.is_empty());
}

#[test]
fn drain_after_lag_keeps_newest_and_counts_dropped() {
    let mut bus = BroadcastBus::new(2);
    let mut sub = bus.subscribe();
    for i in 0..5 {
        bus.publish(msg("alice", &format!("m{}", i), i));
    }
    let (batch, skipped) = bus.drain(&mut sub);
    assert_eq!(skipped, 3);
    let contents: Vec<&str> = batch.iter().map(|m| m.content.as_str()).collect();
    assert_eq!(contents, vec!["m3", "m4"]);
}

#[test]
fn register_auth_replies_and_states() {
    let mut store = CredentialStore::new();
    let out = handle_auth(
        &mut store,
        ControlMessage::Register { username: "alice".to_owned(), password: "pw1".to_owned() },
    );
    assert_eq!(out.reply, "Registration successful");
    assert_eq!(out.state, SessionState::Authenticated);
    assert_eq!(out.error, None);

    let out = handle_auth(
        &mut store,
        ControlMessage::Register { username: "alice".to_owned(), password: "pw2".to_owned() },
    );
    assert_eq!(out.reply, "Registration failed: Username already exists");
    assert_eq!(out.state, SessionState::Closed);
    assert_eq!(out.error, Some(ChatError::AuthConflict));
}

#[test]
fn login_auth_replies_and_states() {
    let mut store = CredentialStore::new();
    store.register("alice".to_owned(), "pw1".to_owned()).unwrap();

    let out = handle_auth(
        &mut store,
        ControlMessage::Login { username: "alice".to_owned(), password: "pw1".to_owned() },
    );
    assert_eq!(out.reply, "Authentication successful");
    assert_eq!(out.state, SessionState::Authenticated);
    assert_eq!(out.error, None);

    let out = handle_auth(
        &mut store,
        ControlMessage::Login { username: "alice".to_owned(), password: "wrong".to_owned() },
    );
    assert_eq!(out.reply, "Authentication failed");
    assert_eq!(out.state, SessionState::Closed);
    assert_eq!(out.error, Some(ChatError::AuthRejected));
}

#[test]
fn invalid_control_message_closes_the_session() {
    let mut store = CredentialStore::new();
    let out = handle_auth(&mut store, ControlMessage::Invalid);
    assert_eq!(out.reply, "Invalid authentication type");
    assert_eq!(out.state, SessionState::Closed);
    assert_eq!(out.error, Some(ChatError::MalformedControl));
}

#[test]
fn control_classification() {
    let c = classify_control(
        Some("register".to_owned()),
        Some("alice".to_owned()),
        Some("pw1".to_owned()),
    );
    assert!(
        matches!(c, ControlMessage::Register { username, password } if username == "alice" && password == "pw1")
    );
    let c = classify_control(
        Some("login".to_owned()),
        Some("alice".to_owned()),
        Some("pw1".to_owned()),
    );
    assert!(
        matches!(c, ControlMessage::Login { username, password } if username == "alice" && password == "pw1")
    );
    // An unknown type, or any missing field, is invalid.
    let c = classify_control(
        Some("logout".to_owned()),
        Some("alice".to_owned()),
        Some("pw1".to_owned()),
    );
    assert!(matches!(c, ControlMessage::Invalid));
    let c = classify_control(None, Some("alice".to_owned()), Some("pw1".to_owned()));
    assert!(matches!(c, ControlMessage::Invalid));
    let c = classify_control(Some("register".to_owned()), None, Some("pw1".to_owned()));
    assert!(matches!(c, ControlMessage::Invalid));
    let c = classify_control(Some("register".to_owned()), Some("alice".to_owned()), None);
    assert!(matches!(c, ControlMessage::Invalid));
}

#[test]
fn malformed_payload_is_discarded_and_harmless() {
    let mut history = HistoryLog::new();
    let mut bus = BroadcastBus::new(BUS_CAPACITY);
    history.append(msg("alice", "kept", 1));
    bus.publish(msg("alice", "kept", 1));
    let mut other = bus.subscribe();

    let r = handle_client_payload(&mut history, &mut bus, None);
    assert_eq!(r, Err(ChatError::MalformedMessage));

    // Nothing was appended and no other session's delivery changed.
    assert_eq!(history.len(), 1);
    assert!(matches!(bus.receive(&mut other), Delivery::Empty));

    // The session is still able to accept a well-formed message afterwards.
    let r = handle_client_payload(&mut history, &mut bus, Some(msg("alice", "next", 2)));
    assert_eq!(r, Ok(()));
    assert_eq!(history.len(), 2);
    match bus.receive(&mut other) {
        Delivery::Item(m) => assert_eq!(m.content, "next"),
        _ => panic!("the well-formed message reaches other sessions"),
    }
}

#[test]
fn full_scenario_register_login_history_replay() {
    let mut server = ChatServer::new();

    // Register "alice"/"pw1": succeeds.
    assert_eq!(server.register_user("alice".to_owned(), "pw1".to_owned()), Ok(()));
    // Register "alice"/"pw2": fails with the conflict error.
    assert_eq!(
        server.register_user("alice".to_owned(), "pw2".to_owned()),
        Err(ChatError::AuthConflict)
    );
    // Login "alice"/"pw1": succeeds.
    assert!(server.authenticate_user(&"alice".to_owned(), &"pw1".to_owned()));
    // Login "alice"/"wrong": fails.
    assert!(!server.authenticate_user(&"alice".to_owned(), &"wrong".to_owned()));

    // Alice sends one message; then client B joins.
    server.broadcast_message(msg("alice", "hi", 1000));
    let (replay, mut sub) = server.join_session();

    // B's history replay holds exactly that one message ...
    assert_eq!(replay.len(), 1);
    assert_eq!(replay[0].sender, "alice");
    assert_eq!(replay[0].content, "hi");
    assert_eq!(replay[0].timestamp, 1000);
    // ... and nothing precedes it on B's subscription: only messages
    // accepted after the join are delivered there.
    assert!(matches!(server.bus.receive(&mut sub), Delivery::Empty));
    server.broadcast_message(msg("alice", "welcome", 1001));
    match server.bus.receive(&mut sub) {
        Delivery::Item(m) => assert_eq!(m.content, "welcome"),
        _ => panic!("live broadcasts follow the replay"),
    }
}

#[test]
fn replay_is_prefix_consistent_for_new_joiner() {
    let mut server = ChatServer::new();
    server.broadcast_message(msg("a", "m1", 1));
    server.broadcast_message(msg("b", "m2", 2));
    server.broadcast_message(msg("c", "m3", 3));

    let (replay, mut sub) = server.join_session();
    let contents: Vec<&str> = replay.iter().map(|m| m.content.as_str()).collect();
    assert_eq!(contents, vec!["m1", "m2", "m3"]);

    server.broadcast_message(msg("d", "m4", 4));
    match server.bus.receive(&mut sub) {
        Delivery::Item(m) => assert_eq!(m.content, "m4"),
        _ => panic!("the joiner sees only post-join messages live"),
    }
    assert!(matches!(server.bus.receive(&mut sub), Delivery::Empty));
}

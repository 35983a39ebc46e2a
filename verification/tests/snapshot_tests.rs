use axonerai::provider::{Message, Role};
use axonerai::session::Session;
use axonerai::snapshot::{decode_session, encode_session};

#[test]
fn round_trip_reproduces_messages_and_identity() {
    let mut session = Session::new("session-123".to_string());
    session.add_message(Message { role: Role::User, content: "what is 2+2?".to_string() });
    session.add_message(Message { role: Role::Assistant, content: "4".to_string() });
    session.add_message(Message { role: Role::User, content: "thanks!".to_string() });
    let snapshot = encode_session(&session);
    let loaded = decode_session(&snapshot).unwrap();
    assert_eq!(loaded.session_id(), "session-123");
    assert_eq!(loaded.get_messages(), session.get_messages());
    assert_eq!(loaded.time_stamp(), session.time_stamp());
}

#[test]
fn round_trip_survives_awkward_content() {
    let mut session = Session::new("id with spaces \n and \"quotes\"".to_string());
    session.add_message(Message {
        role: Role::User,
        content: "line one\nline two\t{\"k\": \"v\"} 0000000000000000000042".to_string(),
    });
    session.add_message(Message { role: Role::Assistant, content: "".to_string() });
    session.add_message(Message { role: Role::Assistant, content: "héllo — ünïcødé ✓".to_string() });
    let snapshot = encode_session(&session);
    let loaded = decode_session(&snapshot).unwrap();
    assert_eq!(loaded.session_id(), session.session_id());
    assert_eq!(loaded.get_messages(), session.get_messages());
}

#[test]
fn round_trip_of_empty_session() {
    let session = Session::new("empty".to_string());
    let loaded = decode_session(&encode_session(&session)).unwrap();
    assert_eq!(loaded.session_id(), "empty");
    assert!(loaded.get_messages().is_empty());
}

#[test]
fn garbage_is_rejected_as_store_error() {
    let err = decode_session("").unwrap_err();
    assert!(matches!(err, axonerai::errors::AgentError::SessionStoreError(_)));
    assert!(decode_session("not a snapshot").is_err());
    assert!(decode_session("0000000000000000000x").is_err());
}

#[test]
fn truncated_snapshot_is_rejected() {
    let mut session = Session::new("s".to_string());
    session.add_message(Message { role: Role::User, content: "hello".to_string() });
    let snapshot = encode_session(&session);
    let mut cut = snapshot.clone();
    cut.pop();
    assert!(decode_session(&cut).is_err());
    let short: String = snapshot.chars().take(25).collect();
    assert!(decode_session(&short).is_err());
}

#[test]
fn trailing_garbage_is_rejected() {
    let session = Session::new("s".to_string());
    let mut snapshot = encode_session(&session);
    snapshot.push('x');
    assert!(decode_session(&snapshot).is_err());
}

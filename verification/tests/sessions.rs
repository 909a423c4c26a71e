use poet::generate_embedding::EmbeddingNormalizationMethod;
use poet::generate_embedding::embedding_batch_params;
use poet::mcp::jsonrpc::notification::message::Message;
use poet::mcp::jsonrpc::notification::message::MessageParams;
use poet::mcp::jsonrpc::server_to_client_notification::ServerToClientNotification;
use poet::mcp::log_level::LogLevel;
use poet::mcp::session::Session;
use poet::mcp::session_manager::SessionManager;

fn message(level: LogLevel) -> Message {
    Message {
        jsonrpc: "2.0".to_string(),
        params: MessageParams {
            data: "payload".to_string(),
            level,
        },
    }
}

#[test]
fn log_drops_messages_below_session_level() {
    let session = Session::new("session-1".to_string());

    assert!(session.log(message(LogLevel::Debug)).is_none());
}

#[test]
fn log_sends_messages_at_or_above_session_level() {
    let session = Session::new("session-1".to_string());

    assert!(session.log(message(LogLevel::Error)).is_some());
    assert!(session.log(message(LogLevel::Info)).is_some());
}

#[test]
fn with_log_level_raises_filtering_threshold() {
    let session = Session::new("session-1".to_string()).with_log_level(LogLevel::Error);

    assert!(session.log(message(LogLevel::Info)).is_none());
    assert_eq!(session.id(), "session-1");
}

#[test]
fn log_message_wraps_params_into_notification() {
    let session = Session::new("session-1".to_string());

    let Some(ServerToClientNotification::Message(received)) = session.log_message(MessageParams {
        data: "details".to_string(),
        level: LogLevel::Warning,
    }) else {
        panic!("expected a logging message notification");
    };

    assert_eq!(received.params.data, "details");
    assert_eq!(received.jsonrpc, "2.0");
}

#[test]
fn duplicate_subscription_is_reported_as_an_error() {
    let m = Session::already_subscribed_message("res://documents/guide");
    assert_eq!(m.data, "You are already subscribed to 'res://documents/guide'");
    assert!(matches!(m.level, LogLevel::Error));
}

#[test]
fn start_new_session_generates_unique_prefixed_ids() {
    let mut manager = SessionManager::new();

    let first = manager.start_new_session();
    let second = manager.start_new_session();

    assert!(first.id().starts_with("poet-"));
    assert_ne!(first.id(), second.id());
    assert_eq!(manager.session_ids().len(), 2);
}

#[test]
fn restore_session_returns_none_without_header() {
    let manager = SessionManager::new();

    assert!(manager.restore_session(None).is_none());
}

#[test]
fn restore_session_returns_none_for_unknown_id() {
    let manager = SessionManager::new();

    assert!(manager.restore_session(Some("poet-unknown")).is_none());
}

#[test]
fn restore_session_returns_stored_session_for_known_id() {
    let mut manager = SessionManager::new();
    let started = manager.start_new_session();
    let session_id = started.id();

    let Some(restored) = manager.restore_session(Some(session_id.as_str())) else {
        panic!("expected a stored session");
    };

    assert_eq!(restored.id(), session_id);
}

#[test]
fn terminate_session_removes_it_from_storage() {
    let mut manager = SessionManager::new();
    let started = manager.start_new_session();
    let session_id = started.id();

    manager.terminate_session(started);

    assert!(manager.restore_session(Some(session_id.as_str())).is_none());
    assert!(manager.session_ids().is_empty());
}

#[test]
fn updated_session_is_restored_with_its_new_level() {
    let mut manager = SessionManager::new();
    let started = manager.start_new_session();
    let session_id = started.id();

    manager.update_session(started.with_log_level(LogLevel::Error));

    let restored = manager
        .restore_session(Some(session_id.as_str()))
        .expect("kept");
    assert!(restored.log(message(LogLevel::Warning)).is_none());
    assert!(restored.log(message(LogLevel::Critical)).is_some());
}

#[test]
fn log_levels_compare_by_severity() {
    assert!(LogLevel::Debug < LogLevel::Info);
    assert!(LogLevel::Emergency > LogLevel::Alert);
    assert!(LogLevel::Warning >= LogLevel::Warning);
}

use poet::generate_embedding::EmbeddingCollector;
use poet::generate_embedding::EmbeddingStreamEvent;
use poet::generate_embedding::EmbeddingStreamStep;
use poet::mcp::session::ResourceSubscriptions;

#[test]
fn subscribe_registers_token_and_rejects_duplicates() {
    let mut subscriptions = ResourceSubscriptions::new();

    assert!(subscriptions.subscribe("res://documents/guide").is_ok());
    assert!(subscriptions.is_subscribed("res://documents/guide"));

    match subscriptions.subscribe("res://documents/guide") {
        Err(message) => {
            assert_eq!(
                message.data,
                "You are already subscribed to 'res://documents/guide'"
            );
            assert!(matches!(message.level, LogLevel::Error));
        }
        Ok(()) => panic!("a second subscription must be refused"),
    }
}

#[test]
fn terminate_cancels_subscription_tokens() {
    let mut subscriptions = ResourceSubscriptions::new();
    subscriptions.subscribe("res://b").expect("new");
    subscriptions.subscribe("res://a").expect("new");

    assert_eq!(subscriptions.uris(), vec!["res://a", "res://b"]);

    subscriptions.unsubscribe("res://a");
    assert!(!subscriptions.is_subscribed("res://a"));
    assert_eq!(subscriptions.uris(), vec!["res://b"]);
}

#[test]
fn embeddings_are_collected_until_the_stream_is_done() {
    let mut collector: EmbeddingCollector<Vec<u8>> = EmbeddingCollector::new();

    assert!(matches!(
        collector.receive(EmbeddingStreamEvent::Embedding(vec![1])),
        EmbeddingStreamStep::Continue
    ));
    assert!(matches!(
        collector.receive(EmbeddingStreamEvent::GeneratedToken),
        EmbeddingStreamStep::Continue
    ));
    assert!(matches!(
        collector.receive(EmbeddingStreamEvent::Embedding(vec![2])),
        EmbeddingStreamStep::Continue
    ));
    assert!(matches!(
        collector.receive(EmbeddingStreamEvent::Done),
        EmbeddingStreamStep::Finished
    ));
    assert_eq!(collector.embeddings, vec![vec![1], vec![2]]);
}

#[test]
fn embedding_stream_failures_carry_their_reason() {
    let mut collector: EmbeddingCollector<u8> = EmbeddingCollector::new();

    let reason = |step: EmbeddingStreamStep| match step {
        EmbeddingStreamStep::Failed(r) => r,
        other => panic!("unexpected {other:?}"),
    };

    assert_eq!(
        reason(collector.receive(EmbeddingStreamEvent::EmbeddingError("bad input".to_string()))),
        "Embedding error: bad input"
    );
    assert_eq!(
        reason(collector.receive(EmbeddingStreamEvent::Timeout)),
        "Embedding request timed out"
    );
    assert_eq!(
        reason(collector.receive(EmbeddingStreamEvent::TooManyBufferedRequests)),
        "Too many buffered requests"
    );
    assert_eq!(
        reason(collector.receive(EmbeddingStreamEvent::ServiceError {
            description: "down".to_string()
        })),
        "Paddler error: down"
    );
    assert_eq!(
        reason(collector.receive(EmbeddingStreamEvent::TransportError("closed".to_string()))),
        "closed"
    );
    assert!(collector.embeddings.is_empty());
}

#[test]
fn broadcast_delivers_notification_to_every_session() {
    let mut manager = SessionManager::new();
    let first = manager.start_new_session();
    let second = manager.start_new_session();

    let targets = manager.session_ids();

    assert_eq!(targets.len(), 2);
    assert!(targets.contains(&first.id()));
    assert!(targets.contains(&second.id()));
}

#[test]
fn session_ids_are_prefixed_lowercase_version_four_uuids() {
    let id = poet::mcp::session_manager::generate_session_id();
    let chars: Vec<char> = id.chars().collect();

    assert_eq!(chars.len(), 41);
    assert!(id.starts_with("poet-"));
    for (i, c) in chars.iter().enumerate().skip(5) {
        if [13, 18, 23, 28].contains(&i) {
            assert_eq!(*c, '-');
        } else {
            assert!(c.is_ascii_hexdigit() && !c.is_ascii_uppercase());
        }
    }
    assert_eq!(chars[19], '4');
    assert!(['8', '9', 'a', 'b'].contains(&chars[24]));
}

#[test]
fn embedding_request_sends_all_documents_with_l2_normalization() {
    let params = embedding_batch_params(vec!["first", "second"]);

    assert_eq!(params.input_batch, vec!["first", "second"]);
    assert_eq!(params.normalization_method, EmbeddingNormalizationMethod::L2);
}

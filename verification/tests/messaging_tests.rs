use rgibberlink_core::messaging::{create_message, MessagePriority, MessageType, MessagingError, RgibberLink};
use rgibberlink_core::protocol::ProtocolState;
use rgibberlink_core::performance_monitor::{PerformanceError, PerformancePreset};

#[test]
fn test_basic_session_creation() {
    let link = RgibberLink::new(0);
    assert!(matches!(link.get_state(), ProtocolState::Idle));
}

#[test]
fn test_handshake_initiation() {
    let mut link = RgibberLink::new(0);
    assert!(link.initiate_handshake().is_ok());
    assert_eq!(link.get_state(), ProtocolState::WaitingForQr);
    assert!(link.initiate_handshake().is_err());
}

#[test]
fn test_messages_need_connection() {
    let link = RgibberLink::new(0);
    assert_eq!(link.send_text_message("hi", 1).err(), Some(MessagingError::ConnectionNotEstablished));
    assert_eq!(link.check_connection(), Err(MessagingError::ConnectionNotEstablished));
}

#[test]
fn test_create_message() {
    let m = create_message(MessageType::Text("hello".to_string()), MessagePriority::Normal, 300, 1234);
    assert_eq!(m.id, "msg_1234");
    assert_eq!(m.ttl_seconds, 300);
    assert_eq!(m.sender_fingerprint, [0u8; 32]);
    assert!(m.content.is_empty());
}

#[test]
fn test_size_limit() {
    let mut link = RgibberLink::new(0);
    let m = create_message(MessageType::Text("x".to_string()), MessagePriority::Low, 60, 5);
    assert_eq!(link.complete_send(&m, 65537, 9), Err(MessagingError::MessageTooLarge));
    assert_eq!(link.get_last_activity(), 0);
    assert_eq!(link.complete_send(&m, 65536, 9), Ok("msg_5".to_string()));
    assert_eq!(link.get_last_activity(), 9);
}

#[test]
fn test_rejected_authorization_queues_notice() {
    let mut link = RgibberLink::new(0);
    let refusal = create_message(
        MessageType::AuthorizationResponse { granted: false, reason: None },
        MessagePriority::High,
        60,
        3,
    );
    assert!(link.process_incoming_message(refusal, 10).is_ok());
    assert!(link.has_pending_messages());
    let pending = link.get_pending_messages();
    assert_eq!(pending.len(), 2);
    match &pending[0].message_type {
        MessageType::Notification { title, body } => {
            assert_eq!(title, "Authorization Rejected");
            assert_eq!(body, "Peer device rejected authorization request. Reason: No reason provided");
        },
        other => panic!("unexpected {:?}", other),
    }
    assert_eq!(pending[0].priority, MessagePriority::Critical);
    assert_eq!(pending[0].ttl_seconds, 86400);
    assert!(matches!(pending[1].message_type, MessageType::AuthorizationResponse { granted: false, .. }));
    assert!(!link.has_pending_messages());
}

#[test]
fn test_ordinary_message_queued() {
    let mut link = RgibberLink::new(0);
    let m = create_message(MessageType::StatusUpdate { status: "ok".to_string(), details: "d".to_string() }, MessagePriority::Normal, 10, 1);
    link.process_incoming_message(m, 4).unwrap();
    assert_eq!(link.get_last_activity(), 4);
    assert_eq!(link.get_pending_messages().len(), 1);
}

#[test]
fn test_link_performance_monitor() {
    let mut link = RgibberLink::new(0);
    assert_eq!(link.start_performance_monitoring(), Err(PerformanceError::InvalidMetrics));
    assert_eq!(link.apply_performance_preset(PerformancePreset::Balanced), Err(PerformanceError::InvalidMetrics));
    assert!(link.get_performance_metrics().is_none());
    assert!(link.get_performance_recommendations().is_empty());
    link.initialize_performance_monitor();
    assert_eq!(link.start_performance_monitoring(), Ok(()));
    assert_eq!(link.apply_performance_preset(PerformancePreset::Balanced), Ok(()));
    assert!(link.get_performance_metrics().is_none());
    link.stop_performance_monitoring();
}

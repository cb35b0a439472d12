use rgibberlink_core::hierarchical::{CommandType, HierarchicalProtocolEngine, HierarchicalState, MilitaryRank};
use rgibberlink_core::laser::{LaserError, ModulationScheme};
use rgibberlink_core::protocol::PerformanceAdjustments;
use rgibberlink_core::range_detector::RangeDetectorCategory;
use rgibberlink_core::security::WeatherCondition;
use rgibberlink_core::protocol::{CommunicationMode, ProtocolEngine, ProtocolError, ProtocolState};
use rgibberlink_core::ultrasonic_beam::BeamSignal;

#[test]
fn test_short_range_handshake() {
    let session = [3u8; 16];
    let mut initiator = ProtocolEngine::with_session_id(session, 0);
    assert!(initiator.initiate_handshake().is_ok());
    assert_eq!(initiator.get_state_value(), ProtocolState::SendingNonce);
    assert!(initiator.nonce_sent().is_ok());
    assert_eq!(initiator.get_state_value(), ProtocolState::WaitingForQr);
    assert!(matches!(initiator.process_qr_payload(&[9u8; 16], vec![1], [7u8; 32]), Err(ProtocolError::CryptoError(_))));
    assert!(initiator.process_qr_payload(&session, vec![1, 2], [7u8; 32]).is_ok());
    assert_eq!(initiator.get_shared_secret(), Some([7u8; 32]));
    assert!(initiator.ack_sent().is_ok());
    assert_eq!(initiator.get_state_value(), ProtocolState::Connected);
    assert_eq!(initiator.message_key(), Ok([7u8; 32]));
}

#[test]
fn test_receiver_handshake() {
    let mut receiver = ProtocolEngine::new(0);
    assert!(receiver.message_key().is_err());
    assert!(matches!(receiver.receive_nonce(&[0u8; 16]), Err(ProtocolError::CryptoError(_))));
    let mut receiver = ProtocolEngine::new(0);
    assert!(receiver.receive_nonce(&[0u8; 32]).is_ok());
    assert!(receiver.receive_ack().is_ok());
    assert_eq!(receiver.get_state_value(), ProtocolState::Connected);
    assert_eq!(receiver.receive_ack(), Err(ProtocolError::InvalidState));
}

#[test]
fn test_long_range_handshake_start() {
    let session = [5u8; 16];
    let mut engine = ProtocolEngine::with_session_id(session, 0);
    assert_eq!(engine.initiate_long_range_handshake(0).err(), Some(ProtocolError::InvalidState));
    assert!(engine.set_mode(CommunicationMode::LongRange, 0).is_ok());
    match engine.initiate_long_range_handshake(10).unwrap() {
        BeamSignal::SyncPulse { duration_ms, pattern } => {
            assert_eq!(duration_ms, 50);
            assert_eq!(pattern, session.to_vec());
        },
        _ => panic!("expected sync pulse"),
    }
    assert_eq!(engine.get_state_value(), ProtocolState::LongRangeSync);
    assert!(engine.long_range_sync_sent().is_ok());
    assert_eq!(engine.get_state_value(), ProtocolState::LongRangeKeyExchange);
}

#[test]
fn test_receive_long_range_sync() {
    let session = [6u8; 16];
    let mut engine = ProtocolEngine::with_session_id(session, 0);
    assert!(engine.receive_long_range_sync(&[1u8; 16], 5).is_err());
    assert!(engine.receive_long_range_sync(&session, 5).is_ok());
    assert_eq!(engine.get_state_value(), ProtocolState::LongRangeKeyExchange);
}

#[test]
fn test_timeouts_and_fallback() {
    let mut engine = ProtocolEngine::with_session_id([1u8; 16], 0);
    engine.initiate_handshake().unwrap();
    assert!(engine.check_timeout_and_retry(30_000).is_ok());
    assert_eq!(engine.get_state_value(), ProtocolState::SendingNonce);
    let mut t = 30_001u64;
    for _ in 0..3 {
        assert!(engine.check_timeout_and_retry(t).is_ok());
        assert_eq!(engine.get_state_value(), ProtocolState::Idle);
        t += 30_001;
    }
    assert_eq!(engine.check_timeout_and_retry(t), Err(ProtocolError::FallbackToShortRange));
    assert_eq!(engine.get_state_value(), ProtocolState::FallbackToShortRange);
}

#[test]
fn test_fast_sync_packet() {
    let engine = ProtocolEngine::with_session_id([2u8; 16], 0);
    let a = engine.create_fast_sync_packet(&[1, 2, 3], &[2u8; 16], 500);
    assert_eq!(a.len(), 16 + 3 + 16 + 4);
    assert_eq!(&a[..16], &[2u8; 16]);
    assert_eq!(&a[16..19], &[1, 2, 3]);
    assert_eq!(a[19], 0xF4);
    assert_eq!(a[20], 0x01);
    let body = &a[..35];
    let crc = crc32fast::hash(body);
    assert_eq!(&a[35..], &crc.to_le_bytes());
    let b = engine.create_fast_sync_packet(&[1, 2, 4], &[2u8; 16], 500);
    assert_ne!(&a[35..], &b[35..]);
}

#[test]
fn test_performance_check_interval() {
    let mut engine = ProtocolEngine::new(0);
    assert!(!engine.performance_check_due(10_000));
    engine.enable_performance_monitoring().unwrap();
    assert!(engine.performance_check_due(600));
    assert!(!engine.performance_check_due(700));
    assert!(engine.performance_check_due(1100));
}

#[test]
fn test_performance_check_cycle() {
    let mut engine = ProtocolEngine::with_session_id([1u8; 16], 0);
    assert!(engine.initialize_long_range(0).is_ok());
    assert_eq!(engine.perform_performance_check(600, true, None, None, 900), Ok(None));
    assert!(engine.enable_performance_monitoring().is_ok());
    assert_eq!(engine.get_performance_status(), None);
    assert_eq!(engine.perform_performance_check(100, true, Some(RangeDetectorCategory::Far), None, 900), Ok(None));
    let adjustments = engine.perform_performance_check(600, true, Some(RangeDetectorCategory::Far), None, 900);
    assert_eq!(
        adjustments,
        Ok(Some(PerformanceAdjustments { optimize_power: false, update_modulation: false, update_ecc: false }))
    );
    let status = engine.get_performance_status().unwrap();
    assert_eq!(status.timestamp, 600);
    assert_eq!(status.power_consumption_uw, 3000);
    assert_eq!(status.data_throughput_bps, 1_000_000);
    assert_eq!(status.range_cm, 15000);
    assert_eq!(status.signal_strength_ppm, 800_000);
    assert_eq!(status.modulation_scheme, ModulationScheme::Ook);
    assert!(engine.get_performance_recommendations().is_empty());
    assert_eq!(engine.perform_performance_check(700, true, None, None, 900), Ok(None));
    engine.disable_performance_monitoring();
    assert_eq!(engine.get_performance_status(), None);
}

#[test]
fn test_performance_metrics_without_laser() {
    let engine = ProtocolEngine::with_session_id([2u8; 16], 0);
    let m = engine.collect_performance_metrics(42, false, None, None, 500);
    assert_eq!(m.timestamp, 42);
    assert_eq!(m.handshake_latency_ms, 250);
    assert_eq!(m.power_consumption_uw, 0);
    assert_eq!(m.range_cm, 0);
    assert_eq!(m.signal_strength_ppm, 0);
    assert_eq!(m.bit_error_rate_ppm, 1000);
}

#[test]
fn test_environmental_update_needs_range_detector() {
    let mut plain = ProtocolEngine::with_session_id([2u8; 16], 0);
    assert_eq!(plain.update_environmental_conditions(WeatherCondition::Fog, 5000), Ok(()));
    let mut long = ProtocolEngine::with_session_id([2u8; 16], 0);
    long.initialize_long_range(0).unwrap();
    assert_eq!(
        long.update_environmental_conditions(WeatherCondition::Fog, 5000),
        Err(ProtocolError::LaserError(LaserError::HardwareUnavailable))
    );
}

#[test]
fn test_automatic_adjustments() {
    let mut engine = ProtocolEngine::with_session_id([1u8; 16], 0);
    engine.initialize_long_range(0).unwrap();
    let mut m = engine.collect_performance_metrics(0, true, None, None, 900);
    assert_eq!(engine.perform_automatic_adjustments(&m, None, 0), Ok(()));
    m.bit_error_rate_ppm = 20_000;
    m.power_consumption_uw = 200_000;
    m.data_throughput_bps = 100_000;
    assert_eq!(engine.perform_automatic_adjustments(&m, None, 0), Ok(()));
    let mut bare = ProtocolEngine::with_session_id([1u8; 16], 0);
    assert_eq!(bare.perform_automatic_adjustments(&m, None, 0), Ok(()));
}

#[test]
fn test_protocol_hierarchy_delegation() {
    let mut protocol = ProtocolEngine::with_session_id([1u8; 16], 0);
    let mut captain = HierarchicalProtocolEngine::new(MilitaryRank::Captain, 0);
    assert_eq!(protocol.enable_hierarchical_protocol(&mut captain), Ok(()));
    assert_eq!(protocol.get_hierarchical_state(&captain), HierarchicalState::Discovering);
    assert_eq!(protocol.get_device_rank(&captain), MilitaryRank::Captain);
    assert_eq!(
        protocol.send_hierarchical_command(MilitaryRank::Private, CommandType::DirectOrder, vec![1], true, &mut captain, 5),
        Ok(0)
    );
    assert_eq!(
        protocol.send_hierarchical_command(MilitaryRank::General, CommandType::DirectOrder, vec![1], true, &mut captain, 5),
        Err(ProtocolError::InvalidState)
    );
    let presence = protocol.broadcast_hierarchical_presence(&mut captain, 6000, 6000).unwrap();
    let m = presence.unwrap();
    assert_eq!(m.payload, b"RANK_4".to_vec());
    assert_eq!(m.sequence_id, 1);
    let order = rgibberlink_core::hierarchical::HierarchicalMessage {
        rank: MilitaryRank::Captain,
        target_rank: Some(MilitaryRank::Captain),
        sequence_id: 7,
        timestamp: 1,
        command_type: CommandType::DirectOrder,
        payload: vec![],
        ack_required: true,
    };
    let ack = protocol.process_hierarchical_message(&order, &mut captain, 6000, 6001).unwrap().unwrap();
    assert_eq!(ack.command_type, CommandType::Acknowledgment);
    assert_eq!(ack.payload, b"ACK_7".to_vec());
}

#[test]
fn test_receive_ultrasonic_data_buffers_record() {
    let mut engine = ProtocolEngine::new(0);
    assert_eq!(engine.receive_ultrasonic_data(b"sync", 1, 5), Ok(()));
    engine.initialize_long_range(0).unwrap();
    assert_eq!(engine.receive_ultrasonic_data(b"sync", 2, 10), Ok(()));
    assert_eq!(engine.receive_ultrasonic_data(b"sync-again", 3, 20), Ok(()));
}

fn reference_crc32(data: &[u8]) -> u32 {
    let mut reg: u32 = 0xFFFF_FFFF;
    for &b in data {
        reg ^= b as u32;
        for _ in 0..8 {
            reg = if reg & 1 == 1 { (reg >> 1) ^ 0xEDB8_8320 } else { reg >> 1 };
        }
    }
    reg ^ 0xFFFF_FFFF
}

#[test]
fn test_sync_packet_checksum_is_crc32() {
    assert_eq!(reference_crc32(b"123456789"), 0xCBF4_3926);
    let engine = ProtocolEngine::new(0);
    let packet = engine.create_fast_sync_packet(&[1, 2, 3], &[2u8; 16], 500);
    let body = &packet[..packet.len() - 4];
    let checksum = u32::from_le_bytes([
        packet[packet.len() - 4],
        packet[packet.len() - 3],
        packet[packet.len() - 2],
        packet[packet.len() - 1],
    ]);
    assert_eq!(checksum, reference_crc32(body));
}

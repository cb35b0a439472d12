use rgibberlink_core::fallback::{FallbackConfig, FallbackError, FallbackMode};
use rgibberlink_core::fallback::{
    assess_channel_health, crypto_state_snapshot, determine_failure_reason, send_fallback_notification, ChannelFailure, ChannelHealth, FallbackManager, RecoveryStep,
};
use rgibberlink_core::laser::AlignmentStatus;
use rgibberlink_core::fallback::LaserReading;
use rgibberlink_core::protocol::{CommunicationMode, ProtocolEngine, ProtocolState};

#[test]
fn test_fallback_manager_creation() {
    let manager = FallbackManager::new(0);
    let status = manager.get_fallback_status();
    assert!(!status.active);
    assert_eq!(status.current_mode, CommunicationMode::Auto);
}

#[test]
fn test_health_assessment() {
    let health = assess_channel_health(None, None, &ProtocolState::Idle, 0);
    assert!(health.overall_health_score_permille < 500);
}

#[test]
fn test_failure_reason_detection() {
    let health = ChannelHealth {
        laser_signal_strength_permille: 100,
        laser_alignment_status: false,
        ultrasound_signal_strength_permille: 800,
        ultrasound_presence_detected: true,
        overall_health_score_permille: 200,
        last_update_ms: 0,
    };
    let reason = determine_failure_reason(&health);
    assert_eq!(reason, Some(ChannelFailure::LaserAlignmentLost));
}

#[test]
fn test_healthy_laser_reading() {
    let reading = LaserReading {
        active: true,
        alignment: AlignmentStatus { is_aligned: true, signal_strength_permille: 900 },
        power_safe: true,
    };
    let health = assess_channel_health(Some(reading), None, &ProtocolState::Connected, 5);
    assert!(health.laser_alignment_status);
    assert_eq!(health.laser_signal_strength_permille, 900);
    assert_eq!(health.last_update_ms, 5);
}

#[test]
fn test_fallback_and_recovery_cycle() {
    let mut manager = FallbackManager::new(0);
    let mut protocol = ProtocolEngine::new(0);
    let poor = ChannelHealth {
        laser_signal_strength_permille: 100,
        laser_alignment_status: false,
        ultrasound_signal_strength_permille: 800,
        ultrasound_presence_detected: true,
        overall_health_score_permille: 200,
        last_update_ms: 0,
    };
    assert_eq!(manager.record_health(poor, 10), Some(ChannelFailure::LaserAlignmentLost));
    assert_eq!(manager.get_failure_history().len(), 1);
    assert!(manager.trigger_fallback(&mut protocol, ChannelFailure::LaserAlignmentLost, vec![], &vec![], None, 10).is_ok());
    assert!(manager.is_fallback_active());
    assert_eq!(protocol.get_mode(), CommunicationMode::ShortRange);
    assert_eq!(manager.record_health(poor, 11), None);
    assert_eq!(manager.recovery_tick(Some(900), 20), RecoveryStep::AttemptRecovery);
}

#[test]
fn test_crypto_state_snapshot() {
    let mut protocol = ProtocolEngine::with_session_id([4u8; 16], 0);
    protocol.set_shared_secret(Some([8u8; 32]));
    protocol.set_peer_public_key(Some(vec![1, 2, 3]));
    let snapshot = crypto_state_snapshot(&protocol);
    assert_eq!(snapshot.session_id, [4u8; 16]);
    assert_eq!(snapshot.shared_secret, Some([8u8; 32]));
    assert_eq!(snapshot.peer_public_key, Some(vec![1, 2, 3]));
    assert_eq!(snapshot.protocol_state, ProtocolState::Idle);
    assert_eq!(snapshot.communication_mode, CommunicationMode::Auto);
}

#[test]
fn test_fallback_notifications() {
    assert_eq!(
        send_fallback_notification(&ChannelFailure::LaserBlocked),
        "Laser communication blocked - switched to short-range mode"
    );
    assert_eq!(
        send_fallback_notification(&ChannelFailure::EnvironmentalConditions),
        "Poor environmental conditions - switched to short-range mode"
    );
    assert_eq!(
        send_fallback_notification(&ChannelFailure::HardwareTimeout),
        "Communication channel failure - switched to short-range mode"
    );
}

#[test]
fn test_manual_fallback() {
    let mut protocol = ProtocolEngine::new(0);
    let session = protocol.get_session_id();
    let mut manager = FallbackManager::new(0);
    assert_eq!(manager.manual_fallback(&mut protocol, ChannelFailure::LaserBlocked, vec![1, 2], &vec![], None, 50), Ok(()));
    let status = manager.get_fallback_status();
    assert!(status.active);
    assert_eq!(status.current_mode, CommunicationMode::ShortRange);
    assert_eq!(status.failure_reason, Some(ChannelFailure::LaserBlocked));
    assert_eq!(status.fallback_time_ms, Some(50));
    assert_eq!(status.recovery_attempts, 0);
    assert_eq!(status.session_snapshot.as_ref().unwrap().session_id, session);
    assert_eq!(protocol.get_mode(), CommunicationMode::ShortRange);

    let config = FallbackConfig { mode: FallbackMode::Disabled, ..FallbackConfig::default() };
    let mut disabled = FallbackManager::with_config(config, 0);
    let mut other = ProtocolEngine::new(0);
    let mode_before = other.get_mode();
    assert_eq!(
        disabled.manual_fallback(&mut other, ChannelFailure::LaserBlocked, vec![], &vec![Some(900)], None, 50),
        Err(FallbackError::FallbackDisabled)
    );
    let status = disabled.get_fallback_status();
    assert!(!status.active);
    assert_eq!(status.current_mode, CommunicationMode::Auto);
    assert_eq!(status.failure_reason, None);
    assert!(status.session_snapshot.is_none());
    assert_eq!(other.get_mode(), mode_before);
}

#[test]
fn test_manual_fallback_runs_recovery_checks() {
    let mut protocol = ProtocolEngine::new(0);
    let mut manager = FallbackManager::new(0);
    let failed_checks: Vec<Option<u32>> = vec![None, Some(300), None, Some(650), None, Some(900)];
    assert_eq!(manager.manual_fallback(&mut protocol, ChannelFailure::LaserBlocked, vec![], &failed_checks, None, 5), Ok(()));
    let status = manager.get_fallback_status();
    assert!(status.active);
    assert_eq!(status.current_mode, CommunicationMode::ShortRange);
    assert_eq!(status.failure_reason, Some(ChannelFailure::LaserBlocked));
    assert_eq!(status.recovery_attempts, 5);
    assert!(status.session_snapshot.is_some());
    assert_eq!(protocol.get_mode(), CommunicationMode::ShortRange);
}

#[test]
fn test_manual_fallback_recovers_on_healthy_reading() {
    let mut protocol = ProtocolEngine::new(0);
    let mut manager = FallbackManager::new(0);
    let checks: Vec<Option<u32>> = vec![Some(400), Some(750), Some(100)];
    assert_eq!(manager.manual_fallback(&mut protocol, ChannelFailure::LaserBlocked, vec![], &checks, None, 5), Ok(()));
    let status = manager.get_fallback_status();
    assert!(!status.active);
    assert_eq!(status.current_mode, CommunicationMode::LongRange);
    assert_eq!(status.failure_reason, None);
    assert_eq!(status.recovery_attempts, 2);
    assert_eq!(protocol.get_mode(), CommunicationMode::LongRange);
}

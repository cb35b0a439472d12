use rgibberlink_core::ultrasonic_beam::{BeamConfig, BeamSignal, UltrasonicBeamEngine, UltrasonicBeamError};

#[test]
fn test_beam_engine_creation() {
    let engine = UltrasonicBeamEngine::new();
    assert!(!engine.is_active());
    assert_eq!(engine.get_config().fundamental_bands[0], 40000);
}

#[test]
fn test_invalid_range_config() {
    let config = BeamConfig { range_cm: 5000, ..Default::default() };
    let result = UltrasonicBeamEngine::with_config(config);
    assert!(matches!(result, Err(UltrasonicBeamError::RangeOutOfBounds(5000))));
}

#[test]
fn test_invalid_band_config() {
    let config = BeamConfig { fundamental_bands: vec![10000], ..Default::default() };
    assert!(matches!(UltrasonicBeamEngine::with_config(config), Err(UltrasonicBeamError::InvalidParameters(_))));
    let config = BeamConfig { harmonic_bands: vec![200000], ..Default::default() };
    assert!(matches!(UltrasonicBeamEngine::with_config(config), Err(UltrasonicBeamError::InvalidParameters(_))));
}

#[test]
fn test_control_data_size_limit() {
    let mut engine = UltrasonicBeamEngine::new();
    assert!(engine.initialize().is_ok());
    let large_data = vec![0u8; 64];
    let result = engine.transmit_control_data(&large_data, 1);
    assert!(matches!(result, Err(UltrasonicBeamError::InvalidParameters(_))));
    match engine.transmit_control_data(&[1, 2, 3], 7).unwrap() {
        BeamSignal::ControlData { data, priority } => {
            assert_eq!(data, vec![1, 2, 3]);
            assert_eq!(priority, 7);
        },
        _ => panic!("expected control data"),
    }
}

#[test]
fn test_inactive_engine_refuses() {
    let engine = UltrasonicBeamEngine::new();
    assert!(matches!(engine.transmit_sync_pulse(&[1]), Err(UltrasonicBeamError::HardwareUnavailable)));
    assert!(matches!(engine.detect_presence(), Err(UltrasonicBeamError::HardwareUnavailable)));
}

#[test]
fn test_sync_pulse() {
    let mut engine = UltrasonicBeamEngine::new();
    engine.initialize().unwrap();
    match engine.transmit_sync_pulse(&[0xAA; 16]).unwrap() {
        BeamSignal::SyncPulse { duration_ms, pattern } => {
            assert_eq!(duration_ms, 50);
            assert_eq!(pattern.len(), 16);
        },
        _ => panic!("expected sync pulse"),
    }
    assert!(engine.transmit_sync_pulse(&[0xAA; 17]).is_err());
}

#[test]
fn test_beam_channel_diagnostics() {
    let mut engine = UltrasonicBeamEngine::new();
    let idle = engine.get_channel_diagnostics();
    assert!(!idle.is_active);
    assert_eq!(idle.detected_failures, vec![UltrasonicBeamError::HardwareUnavailable]);
    engine.initialize().unwrap();
    let d = engine.get_channel_diagnostics();
    assert!(d.is_active);
    assert!(!d.presence_detected);
    assert_eq!(d.configured_range_cm, 2000);
    assert_eq!(d.carrier_frequency_hz, 40000);
    assert_eq!(d.power_level_permille, 800);
    assert_eq!(d.detected_failures, vec![UltrasonicBeamError::PresenceDetectionError]);
}

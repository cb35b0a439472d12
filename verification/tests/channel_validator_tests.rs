use rgibberlink_core::channel_validator::{
    ChannelData, ChannelType, ChannelValidator, ValidationConfig, ValidationError, ValidationPhase,
};

fn data(channel_type: ChannelType, bytes: Vec<u8>, timestamp_ms: u64) -> ChannelData {
    ChannelData { channel_type, data: bytes, timestamp_ms, sequence_id: 1 }
}

#[test]
fn test_channel_validator_creation() {
    let validator = ChannelValidator::new(0);
    assert!(!validator.is_validated());
    assert_eq!(validator.get_current_phase(), ValidationPhase::Idle);
}

#[test]
fn test_temporal_coupling_validation() {
    let mut validator = ChannelValidator::new(0);
    let laser_data = data(ChannelType::Laser, vec![1, 2, 3], 1000);
    let ultrasound_data = data(ChannelType::Ultrasound, vec![4, 5, 6], 1000);
    assert!(validator.validate_temporal_coupling(&laser_data, &ultrasound_data).is_ok());
}

#[test]
fn test_temporal_coupling_failure() {
    let mut validator = ChannelValidator::new(0);
    let laser_data = data(ChannelType::Laser, vec![1, 2, 3], 1000);
    let ultrasound_data = data(ChannelType::Ultrasound, vec![4, 5, 6], 1200);
    let result = validator.validate_temporal_coupling(&laser_data, &ultrasound_data);
    assert!(matches!(result, Err(ValidationError::TemporalCouplingFailed(200, 100))));
}

#[test]
fn test_anti_replay_protection() {
    let mut validator = ChannelValidator::new(0);
    let laser_data = data(ChannelType::Laser, vec![1, 2, 3], 1000);
    let ultrasound_data = data(ChannelType::Ultrasound, vec![4, 5, 6], 1000);
    assert!(validator.validate_anti_replay(&laser_data, &ultrasound_data, 1000).is_ok());
    let result2 = validator.validate_anti_replay(&laser_data, &ultrasound_data, 1001);
    assert!(matches!(result2, Err(ValidationError::AntiReplayFailed)));
}

#[test]
fn test_replay_accepted_after_window() {
    let mut validator = ChannelValidator::new(0);
    let laser_data = data(ChannelType::Laser, vec![1], 0);
    let ultrasound_data = data(ChannelType::Ultrasound, vec![2], 0);
    assert!(validator.validate_anti_replay(&laser_data, &ultrasound_data, 1000).is_ok());
    assert!(validator.validate_anti_replay(&laser_data, &ultrasound_data, 7000).is_ok());
}

#[test]
fn test_channel_quality_calculation() {
    let validator = ChannelValidator::new(0);
    let laser_data = data(ChannelType::Laser, vec![1, 2, 3], 1000);
    let ultrasound_data = data(ChannelType::Ultrasound, vec![4, 5, 6], 1000);
    let quality = validator.calculate_coupling_quality(&laser_data, &ultrasound_data);
    assert!(quality > 0 && quality <= 1000);
    assert_eq!(quality, 920);
    let late = data(ChannelType::Ultrasound, vec![4, 5, 6], 1050);
    assert_eq!(validator.calculate_coupling_quality(&laser_data, &late), 670);
}

#[test]
fn test_phase_order() {
    let mut validator = ChannelValidator::new(0);
    assert_eq!(validator.update_phase(ValidationPhase::FullyValidated), Err(ValidationError::InvalidPhaseTransition));
    assert!(validator.update_phase(ValidationPhase::TemporalCouplingValidated).is_ok());
    assert!(validator.update_phase(ValidationPhase::CrossChannelSignatureVerified).is_ok());
    assert!(validator.update_phase(ValidationPhase::AntiReplayCheckPassed).is_ok());
    assert!(validator.update_phase(ValidationPhase::FullyValidated).is_ok());
    assert!(validator.is_validated());
    assert!(validator.update_phase(ValidationPhase::FallbackMode).is_ok());
    validator.reset();
    assert_eq!(validator.get_current_phase(), ValidationPhase::Idle);
}

#[test]
fn test_fallback_disabled() {
    let config = ValidationConfig { fallback_enabled: false, ..ValidationConfig::default() };
    let mut validator = ChannelValidator::with_config(config, 0);
    assert_eq!(validator.update_phase(ValidationPhase::FallbackMode), Err(ValidationError::InvalidPhaseTransition));
}

#[test]
fn test_full_validation() {
    let mut validator = ChannelValidator::new(0);
    let laser_data = data(ChannelType::Laser, vec![1, 2, 3], 1000);
    let ultrasound_data = data(ChannelType::Ultrasound, vec![4, 5, 6], 1010);
    assert!(validator.perform_full_validation(&laser_data, &ultrasound_data, 1010).is_ok());
    assert!(validator.is_validated());
    assert_eq!(validator.get_metrics().successful_validations, 1);
}

#[test]
fn test_attempt_coupled_validation_waits_for_both_channels() {
    let mut validator = ChannelValidator::new(0);
    assert!(validator.attempt_coupled_validation(0).is_ok());
    assert_eq!(validator.get_metrics().total_validations, 0);
    validator.receive_channel_data(data(ChannelType::Laser, vec![1, 2, 3], 0), 0).unwrap();
    assert!(validator.attempt_coupled_validation(0).is_ok());
    assert_eq!(validator.get_metrics().total_validations, 0);
}

#[test]
fn test_assess_channel_quality() {
    let validator = ChannelValidator::new(0);
    let d = data(ChannelType::Laser, vec![1], 0);
    assert_eq!(validator.assess_channel_quality(&d, ChannelType::Laser), 850);
    assert_eq!(validator.assess_channel_quality(&d, ChannelType::Ultrasound), 750);
}

#[test]
fn test_failed_coupling_keeps_idle_phase() {
    let mut validator = ChannelValidator::new(0);
    assert_eq!(validator.receive_channel_data(data(ChannelType::Laser, vec![1, 2, 3], 1000), 1000), Ok(()));
    let result = validator.receive_channel_data(data(ChannelType::Ultrasound, vec![4, 5, 6], 1200), 1200);
    assert_eq!(result, Err(ValidationError::TemporalCouplingFailed(200, 100)));
    assert_eq!(validator.get_current_phase(), ValidationPhase::Idle);
    assert!(!validator.is_validated());
}

use rgibberlink_core::mission_transfer::{
    check_binding_data, mission_qr_data, record_binding_channel, record_qr_channel, ChannelBindingData,
    channel_binding_input, check_mission_acceptance, check_mission_identity, is_channel_auth_valid,
    mission_key_input, mission_signing_data, EncryptedMissionPayload, MissionTransferError,
};
use rgibberlink_core::security::MFAAuthentication;

fn mfa(pin: bool, binding: bool, at: u64) -> MFAAuthentication {
    MFAAuthentication {
        pin_verified: pin,
        biometric_verified: false,
        laser_channel_verified: true,
        ultrasound_channel_verified: true,
        cross_channel_binding_verified: binding,
        last_verification_ms: at,
    }
}

fn payload(valid_until: u64) -> EncryptedMissionPayload {
    EncryptedMissionPayload {
        mission_id: [1u8; 16],
        encrypted_data: vec![9, 9],
        signature: vec![],
        session_nonce: [2u8; 16],
        validity_timestamp_ms: valid_until,
        weather_fingerprint: [0u8; 32],
    }
}

#[test]
fn test_signing_data_layout() {
    let d = mission_signing_data(&[1u8; 16], &[7, 8], &[2u8; 16], &[3u8; 32]);
    assert_eq!(d.len(), 16 + 2 + 16 + 32);
    assert_eq!(d[16], 7);
    assert_eq!(d[18], 2);
    assert_eq!(d[34], 3);
}

#[test]
fn test_binding_and_key_inputs() {
    let b = channel_binding_input(&[1u8; 16], &[4u8; 32], &[5u8; 16]);
    assert_eq!(b.len(), 64);
    assert_eq!(b[16], 4);
    assert_eq!(b[48], 5);
    let k = mission_key_input(&[1u8; 16], &[2u8; 16]);
    assert_eq!(k[..16].to_vec(), vec![1u8; 16]);
    assert_eq!(k[16..].to_vec(), vec![2u8; 16]);
}

#[test]
fn test_channel_auth_window() {
    assert!(is_channel_auth_valid(&mfa(true, true, 1000), 1000 + 299_999));
    assert!(!is_channel_auth_valid(&mfa(true, true, 1000), 1000 + 300_000));
    assert!(!is_channel_auth_valid(&mfa(false, true, 1000), 1000));
    assert!(is_channel_auth_valid(&mfa(true, true, 5000), 1000));
}

#[test]
fn test_mission_acceptance_checks() {
    let p = payload(10_000);
    assert!(matches!(
        check_mission_acceptance(&mfa(true, false, 0), Some(&p), 0),
        Err(MissionTransferError::ChannelBindingError(_))
    ));
    assert_eq!(check_mission_acceptance(&mfa(false, true, 0), Some(&p), 0), Err(MissionTransferError::MFANotVerified));
    assert_eq!(check_mission_acceptance(&mfa(true, true, 0), None, 0), Err(MissionTransferError::MissionNotFound));
    assert_eq!(check_mission_acceptance(&mfa(true, true, 9_000), Some(&p), 10_001), Err(MissionTransferError::MissionExpired));
    assert!(check_mission_acceptance(&mfa(true, true, 9_000), Some(&p), 10_000).is_ok());
}

#[test]
fn test_mission_identity() {
    assert!(check_mission_identity(&[1u8; 16], &[1u8; 16]).is_ok());
    assert_eq!(
        check_mission_identity(&[1u8; 16], &[2u8; 16]),
        Err(MissionTransferError::MissionIntegrityError("Mission ID mismatch".to_string()))
    );
}

fn binding(hash: [u8; 32], sequence_id: u32, at: u64) -> ChannelBindingData {
    ChannelBindingData {
        session_id: [1u8; 16],
        mission_id: [2u8; 16],
        mac_binding: vec![1, 2, 3, 4],
        timestamp_ms: at,
        sequence_id,
        payload_hash: hash,
    }
}

#[test]
fn test_binding_data_checks() {
    let hash = [5u8; 32];
    assert_eq!(check_binding_data(&binding(hash, 1, 1000), 1050, Some(&hash)), Ok(()));
    assert_eq!(check_binding_data(&binding(hash, 1, 1000), 1100, Some(&hash)), Ok(()));
    assert_eq!(check_binding_data(&binding(hash, 1, 1000), 1101, Some(&hash)), Err(MissionTransferError::TemporalCouplingFailed));
    assert_eq!(check_binding_data(&binding(hash, 1, 1000), 999, Some(&hash)), Err(MissionTransferError::TemporalCouplingFailed));
    assert_eq!(check_binding_data(&binding(hash, 1, 1000), 1000, None), Err(MissionTransferError::MissionNotFound));
    assert_eq!(
        check_binding_data(&binding(hash, 1, 1000), 1000, Some(&[6u8; 32])),
        Err(MissionTransferError::ChannelBindingError("Payload hash mismatch".to_string()))
    );
    assert_eq!(check_binding_data(&binding(hash, 2, 1000), 1000, Some(&hash)), Err(MissionTransferError::SequenceError));
}

#[test]
fn test_channel_verification_records() {
    let start = MFAAuthentication {
        pin_verified: false,
        biometric_verified: false,
        laser_channel_verified: false,
        ultrasound_channel_verified: false,
        cross_channel_binding_verified: false,
        last_verification_ms: 0,
    };
    let after_qr = record_qr_channel(&start, 10);
    assert!(after_qr.laser_channel_verified);
    assert!(!after_qr.cross_channel_binding_verified);
    assert_eq!(after_qr.last_verification_ms, 10);
    let after_binding = record_binding_channel(&after_qr, 20);
    assert!(after_binding.ultrasound_channel_verified);
    assert!(after_binding.cross_channel_binding_verified);
    assert!(after_binding.laser_channel_verified);
    assert_eq!(after_binding.last_verification_ms, 20);
    assert!(!is_channel_auth_valid(&after_binding, 30));
}

#[test]
fn test_mission_qr_contents() {
    let p = EncryptedMissionPayload {
        mission_id: [1u8; 16],
        encrypted_data: vec![1, 2, 3, 4],
        signature: vec![5, 6, 7, 8],
        session_nonce: [9u8; 16],
        validity_timestamp_ms: 300_000,
        weather_fingerprint: [10u8; 32],
    };
    let qr = mission_qr_data(&p, &[42u8; 33], [11u8; 32]);
    assert_eq!(qr.visual_payload.session_id, [9u8; 16]);
    assert_eq!(qr.visual_payload.nonce, [9u8; 16]);
    assert_eq!(qr.visual_payload.public_key, vec![42u8; 33]);
    assert_eq!(qr.visual_payload.signature, vec![5, 6, 7, 8]);
    assert_eq!(qr.encrypted_mission, vec![1, 2, 3, 4]);
    assert_eq!(qr.mission_id, [1u8; 16]);
    assert_eq!(qr.validity_timestamp_ms, 300_000);
    assert_eq!(qr.weather_fingerprint, [10u8; 32]);
    assert_eq!(qr.payload_hash, [11u8; 32]);
}

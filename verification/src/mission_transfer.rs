//! Mission transfer between a station and a drone: the encrypted payload
//! and the ultrasonic channel binding that travel with it, the byte strings
//! that are signed, authenticated and fed to key derivation, and the checks
//! a drone makes before it decrypts a mission.

use vstd::prelude::*;
use crate::audit::MissionPriority;
use crate::crypto::push_bytes;
use crate::security::{MFAAuthentication, SecurityError};

verus! {

/// An encrypted mission as carried by the QR code.
#[derive(Debug, Clone)]
pub struct EncryptedMissionPayload {
    pub mission_id: [u8; 16],
    pub encrypted_data: Vec<u8>,
    pub signature: Vec<u8>,
    pub session_nonce: [u8; 16],
    /// Milliseconds since the epoch after which the mission has expired.
    pub validity_timestamp_ms: u64,
    /// Hash of the weather conditions when it was signed.
    pub weather_fingerprint: [u8; 32],
}

/// Ultrasonic binding data authenticating the transfer.
#[derive(Debug, Clone)]
pub struct ChannelBindingData {
    pub session_id: [u8; 16],
    pub mission_id: [u8; 16],
    pub mac_binding: Vec<u8>,
    pub timestamp_ms: u64,
    pub sequence_id: u32,
    pub payload_hash: [u8; 32],
}

/// The handshake payload a QR code carries.
#[derive(Debug, Clone)]
pub struct VisualPayload {
    pub session_id: [u8; 16],
    pub public_key: Vec<u8>,
    pub nonce: [u8; 16],
    pub signature: Vec<u8>,
}

/// Everything a mission QR code carries.
#[derive(Debug, Clone)]
pub struct MissionQRData {
    pub visual_payload: VisualPayload,
    pub encrypted_mission: Vec<u8>,
    pub mission_id: [u8; 16],
    /// Milliseconds since the epoch after which the mission has expired.
    pub validity_timestamp_ms: u64,
    pub weather_fingerprint: [u8; 32],
    pub payload_hash: [u8; 32],
}

/// What an operator sees of a pending mission.
#[derive(Debug, Clone)]
pub struct MissionPreview {
    pub id: [u8; 16],
    pub name: String,
    pub description: Option<String>,
    pub priority: MissionPriority,
    pub estimated_duration_ms: u64,
    pub required_scopes: Vec<String>,
    pub risk_assessment: String,
    pub weather_notes: Vec<String>,
}

#[derive(Debug, Clone)]
pub enum TransferAction {
    Received,
    PINValidated,
    ScopesApproved,
    MissionAccepted,
    MissionRejected { reason: String },
    TransferFailed { error: String },
}

/// One step of a transfer, as logged for the operator.
#[derive(Debug, Clone)]
pub struct MissionTransferLog {
    pub timestamp_ms: u64,
    pub mission_id: [u8; 16],
    pub station_fingerprint: [u8; 32],
    pub operator_id: String,
    pub action: TransferAction,
    pub channel_binding_verified: bool,
    pub weather_validated: bool,
    pub scopes_approved: Vec<String>,
}

#[derive(Debug, Clone, PartialEq, Eq)]
pub enum MissionTransferError {
    SecurityError(SecurityError),
    SerializationError(String),
    TemporalCouplingFailed,
    ChannelBindingError(String),
    MissionNotFound,
    SessionNotFound,
    MissionIntegrityError(String),
    WeatherValidationError,
    MFANotVerified,
    MissionExpired,
    SequenceError,
}

/// What the station signs: the mission identifier, the encrypted mission,
/// the session nonce and the weather fingerprint.
pub open spec fn signing_bytes(mission_id: Seq<u8>, encrypted: Seq<u8>, nonce: Seq<u8>, weather: Seq<u8>) -> Seq<u8> {
    mission_id + encrypted + nonce + weather
}

pub fn mission_signing_data(
    mission_id: &[u8; 16],
    encrypted_data: &[u8],
    session_nonce: &[u8; 16],
    weather_fingerprint: &[u8; 32],
) -> (r: Vec<u8>)
    ensures
        r@ == signing_bytes(mission_id@, encrypted_data@, session_nonce@, weather_fingerprint@),
{
    let mut out: Vec<u8> = Vec::new();
    push_bytes(&mut out, mission_id.as_slice());
    push_bytes(&mut out, encrypted_data);
    push_bytes(&mut out, session_nonce.as_slice());
    push_bytes(&mut out, weather_fingerprint.as_slice());
    out
}

/// What the channel binding authenticates: the mission identifier, the
/// payload hash and the session identifier.
pub open spec fn binding_bytes(mission_id: Seq<u8>, payload_hash: Seq<u8>, session_id: Seq<u8>) -> Seq<u8> {
    mission_id + payload_hash + session_id
}

pub fn channel_binding_input(mission_id: &[u8; 16], payload_hash: &[u8; 32], session_id: &[u8; 16]) -> (r: Vec<u8>)
    ensures
        r@ == binding_bytes(mission_id@, payload_hash@, session_id@),
{
    let mut out: Vec<u8> = Vec::new();
    push_bytes(&mut out, mission_id.as_slice());
    push_bytes(&mut out, payload_hash.as_slice());
    push_bytes(&mut out, session_id.as_slice());
    out
}

/// What the mission session key is derived from: the mission identifier and
/// the session nonce.
pub fn mission_key_input(mission_id: &[u8; 16], session_nonce: &[u8; 16]) -> (r: Vec<u8>)
    ensures
        r@ == mission_id@ + session_nonce@,
{
    let mut out: Vec<u8> = Vec::new();
    push_bytes(&mut out, mission_id.as_slice());
    push_bytes(&mut out, session_nonce.as_slice());
    out
}

/// Channel authentication holds for five minutes after verification, once
/// both the PIN and the cross-channel binding are verified. A verification
/// time in the future counts as just now.
pub open spec fn channel_auth_valid(mfa: MFAAuthentication, now_ms: u64) -> bool {
    let elapsed = if now_ms >= mfa.last_verification_ms { now_ms - mfa.last_verification_ms } else { 0 };
    elapsed < 300_000 && mfa.pin_verified && mfa.cross_channel_binding_verified
}

pub fn is_channel_auth_valid(mfa: &MFAAuthentication, now_ms: u64) -> (r: bool)
    ensures
        r == channel_auth_valid(*mfa, now_ms),
{
    let elapsed = if now_ms >= mfa.last_verification_ms { now_ms - mfa.last_verification_ms } else { 0 };
    elapsed < 300_000 && mfa.pin_verified && mfa.cross_channel_binding_verified
}

/// The checks a drone makes, once the PIN is accepted, before it decrypts a
/// mission: the cross-channel binding must be verified, the channel
/// authentication current, the mission received, and not expired.
pub fn check_mission_acceptance(
    mfa: &MFAAuthentication,
    payload: Option<&EncryptedMissionPayload>,
    now_ms: u64,
) -> (r: Result<(), MissionTransferError>)
    ensures
        !mfa.cross_channel_binding_verified ==> (r matches Err(MissionTransferError::ChannelBindingError(m))
            && m@ == "Cross-channel binding not verified"@),
        mfa.cross_channel_binding_verified && !channel_auth_valid(*mfa, now_ms) ==> r == Err::<(), MissionTransferError>(
            MissionTransferError::MFANotVerified,
        ),
        channel_auth_valid(*mfa, now_ms) && payload is None ==> r == Err::<(), MissionTransferError>(
            MissionTransferError::MissionNotFound,
        ),
        channel_auth_valid(*mfa, now_ms) ==> (payload matches Some(p) ==> (if now_ms > p.validity_timestamp_ms {
            r == Err::<(), MissionTransferError>(MissionTransferError::MissionExpired)
        } else {
            r is Ok
        })),
{
    if !mfa.cross_channel_binding_verified {
        return Err(MissionTransferError::ChannelBindingError("Cross-channel binding not verified".to_owned()));
    }
    if !is_channel_auth_valid(mfa, now_ms) {
        return Err(MissionTransferError::MFANotVerified);
    }
    match payload {
        None => Err(MissionTransferError::MissionNotFound),
        Some(p) => {
            if now_ms > p.validity_timestamp_ms {
                Err(MissionTransferError::MissionExpired)
            } else {
                Ok(())
            }
        },
    }
}

/// A decrypted mission must carry the identifier it was announced under.
pub fn check_mission_identity(decrypted_id: &[u8; 16], expected_id: &[u8; 16]) -> (r: Result<(), MissionTransferError>)
    ensures
        decrypted_id@ == expected_id@ ==> r is Ok,
        decrypted_id@ != expected_id@ ==> (r matches Err(MissionTransferError::MissionIntegrityError(m))
            && m@ == "Mission ID mismatch"@),
{
    if crate::crypto::bytes_equal(decrypted_id.as_slice(), expected_id.as_slice()) {
        Ok(())
    } else {
        Err(MissionTransferError::MissionIntegrityError("Mission ID mismatch".to_owned()))
    }
}

/// The checks a drone makes on ultrasonic binding data: it must arrive no
/// more than 100 ms after it was stamped (and not before), bind a mission
/// the drone received (whose payload hash is `expected_hash`), carry that
/// mission's payload hash, and be the first of the sequence.
pub fn check_binding_data(
    binding: &ChannelBindingData,
    now_ms: u64,
    expected_hash: Option<&[u8; 32]>,
) -> (r: Result<(), MissionTransferError>)
    ensures
        (now_ms < binding.timestamp_ms || now_ms - binding.timestamp_ms > 100) ==> r == Err::<(), MissionTransferError>(
            MissionTransferError::TemporalCouplingFailed,
        ),
        binding.timestamp_ms <= now_ms <= binding.timestamp_ms + 100 ==> {
            &&& expected_hash is None ==> r == Err::<(), MissionTransferError>(MissionTransferError::MissionNotFound)
            &&& expected_hash matches Some(h) ==> {
                &&& h@ != binding.payload_hash@ ==> (r matches Err(MissionTransferError::ChannelBindingError(m))
                    && m@ == "Payload hash mismatch"@)
                &&& h@ == binding.payload_hash@ && binding.sequence_id != 1 ==> r == Err::<(), MissionTransferError>(
                    MissionTransferError::SequenceError,
                )
                &&& h@ == binding.payload_hash@ && binding.sequence_id == 1 ==> r is Ok
            }
        },
{
    if now_ms < binding.timestamp_ms || now_ms - binding.timestamp_ms > 100 {
        return Err(MissionTransferError::TemporalCouplingFailed);
    }
    let h = match expected_hash {
        None => {
            return Err(MissionTransferError::MissionNotFound);
        },
        Some(h) => h,
    };
    if !crate::crypto::bytes_equal(binding.payload_hash.as_slice(), h.as_slice()) {
        return Err(MissionTransferError::ChannelBindingError("Payload hash mismatch".to_owned()));
    }
    if binding.sequence_id != 1 {
        return Err(MissionTransferError::SequenceError);
    }
    Ok(())
}

/// Authentication state once the mission QR code has been read: the laser
/// (optical) channel is verified as of `now_ms`.
pub fn record_qr_channel(mfa: &MFAAuthentication, now_ms: u64) -> (r: MFAAuthentication)
    ensures
        r == (MFAAuthentication { laser_channel_verified: true, last_verification_ms: now_ms, ..*mfa }),
{
    MFAAuthentication {
        pin_verified: mfa.pin_verified,
        biometric_verified: mfa.biometric_verified,
        laser_channel_verified: true,
        ultrasound_channel_verified: mfa.ultrasound_channel_verified,
        cross_channel_binding_verified: mfa.cross_channel_binding_verified,
        last_verification_ms: now_ms,
    }
}

/// Authentication state once binding data has passed its checks: the
/// ultrasound channel and the cross-channel binding are verified as of
/// `now_ms`.
pub fn record_binding_channel(mfa: &MFAAuthentication, now_ms: u64) -> (r: MFAAuthentication)
    ensures
        r == (MFAAuthentication {
            ultrasound_channel_verified: true,
            cross_channel_binding_verified: true,
            last_verification_ms: now_ms,
            ..*mfa
        }),
{
    MFAAuthentication {
        pin_verified: mfa.pin_verified,
        biometric_verified: mfa.biometric_verified,
        laser_channel_verified: mfa.laser_channel_verified,
        ultrasound_channel_verified: true,
        cross_channel_binding_verified: true,
        last_verification_ms: now_ms,
    }
}

/// The contents of a mission's QR code: the handshake payload (the session
/// nonce as session identifier and nonce, the station's public key, the
/// mission signature) with the encrypted mission and its metadata, and the
/// hash of the encrypted mission.
pub fn mission_qr_data(payload: &EncryptedMissionPayload, station_public_key: &[u8], payload_hash: [u8; 32]) -> (r: MissionQRData)
    ensures
        r.visual_payload.session_id@ == payload.session_nonce@,
        r.visual_payload.public_key@ == station_public_key@,
        r.visual_payload.nonce@ == payload.session_nonce@,
        r.visual_payload.signature@ == payload.signature@,
        r.encrypted_mission@ == payload.encrypted_data@,
        r.mission_id@ == payload.mission_id@,
        r.validity_timestamp_ms == payload.validity_timestamp_ms,
        r.weather_fingerprint@ == payload.weather_fingerprint@,
        r.payload_hash@ == payload_hash@,
{
    MissionQRData {
        visual_payload: VisualPayload {
            session_id: payload.session_nonce,
            public_key: vstd::slice::slice_to_vec(station_public_key),
            nonce: payload.session_nonce,
            signature: payload.signature.clone(),
        },
        encrypted_mission: payload.encrypted_data.clone(),
        mission_id: payload.mission_id,
        validity_timestamp_ms: payload.validity_timestamp_ms,
        weather_fingerprint: payload.weather_fingerprint,
        payload_hash,
    }
}

} // verus!

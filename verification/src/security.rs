//! Security manager: PIN authentication with lockout, rate limiting,
//! permissions by security level, peer identities and risk, command
//! safeguards and revocation, channel key derivation, session integrity,
//! commitment proofs and the cryptographic audit log.

use vstd::prelude::*;
use vstd::string::StringSliceAdditionalSpecFns;
use crate::channel_validator::ChannelType;
use crate::crypto::{hmac_sha256, hmac_sha256_tag, push_be_u64, push_bytes, sha256, sha256_digest, be_bytes_u64};

verus! {

/// Weather conditions read by environmental policies.
#[derive(Debug, Clone, Copy, PartialEq, Eq, Structural)]
pub enum WeatherCondition {
    Clear,
    Rain,
    Fog,
    Storm,
    Snow,
    HeavyRain,
    LightRain,
    Cloudy,
}

#[derive(Debug, Clone, Copy, PartialEq, Eq, Structural)]
pub enum TimeOfDay {
    Dawn,
    Day,
    Dusk,
    Night,
}

/// Security levels for policy enforcement.
#[derive(Debug, Clone, Copy, PartialEq, Eq, Structural)]
pub enum SecurityLevel {
    /// Discussions only.
    Minimum,
    /// Sensitive operations need confirmation.
    SensitiveEscalation,
    /// Every operation needs an explicit grant.
    Locked,
}

/// Permission types.
#[derive(Debug, Clone, PartialEq, Eq)]
pub enum PermissionType {
    Discussion,
    AccessAuth,
    Command,
    Pairing,
    FileTransfer,
    Other(String),
}

#[derive(Debug, Clone, Copy, PartialEq, Eq, Structural)]
pub enum PermissionScope {
    Single,
    Group,
    All,
    Session,
}

/// A granted permission; instants in milliseconds since the Unix epoch.
#[derive(Debug, Clone)]
pub struct PermissionGrant {
    pub permission_type: PermissionType,
    pub scope: PermissionScope,
    pub granted_at_ms: u64,
    pub expires_at_ms: Option<u64>,
    pub granted_by: String,
}

#[derive(Debug, Clone, Copy, PartialEq, Eq, Structural)]
pub enum TrustLevel {
    Unknown,
    Low,
    Medium,
    High,
    Blocked,
}

#[derive(Debug, Clone, Copy, PartialEq, Eq, Structural)]
pub enum HSMType {
    Software,
    TPM,
    PKCS11,
    AndroidKeyStore,
}

/// Cryptographic algorithm names, for algorithm agility.
#[derive(Debug, Clone)]
pub struct CryptoAlgorithmConfig {
    pub signature_algorithm: String,
    pub encryption_algorithm: String,
    pub key_exchange_algorithm: String,
    pub hash_algorithm: String,
    pub hkdf_algorithm: String,
}

/// Security configuration.
#[derive(Debug, Clone)]
pub struct SecurityConfig {
    pub default_pin: String,
    pub pin_change_required: bool,
    pub biometric_enabled: bool,
    pub max_pin_attempts: u32,
    pub lockout_duration_secs: u64,
    pub rate_limit_window_secs: u64,
    pub max_operations_per_window: u32,
    pub security_level: SecurityLevel,
    pub environmental_monitoring: bool,
    pub crypto_algorithms: CryptoAlgorithmConfig,
    pub enable_cross_channel_signatures: bool,
    pub enable_mfa: bool,
    pub enable_hsm: bool,
    pub enable_zk_proofs: bool,
    pub session_timeout_secs: u64,
    pub key_rotation_interval_hours: u64,
}

impl Default for SecurityConfig {
    /// Three PIN attempts then a 5 minute lockout, ten operations a minute,
    /// sensitive escalation, one hour sessions, daily key rotation.
    fn default() -> (r: Self)
        ensures
            r.pin_change_required,
            !r.biometric_enabled,
            r.max_pin_attempts == 3,
            r.lockout_duration_secs == 300,
            r.rate_limit_window_secs == 60,
            r.max_operations_per_window == 10,
            r.security_level == SecurityLevel::SensitiveEscalation,
            r.session_timeout_secs == 3600,
            r.key_rotation_interval_hours == 24,
    {
        SecurityConfig {
            default_pin: "9999".to_owned(),
            pin_change_required: true,
            biometric_enabled: false,
            max_pin_attempts: 3,
            lockout_duration_secs: 300,
            rate_limit_window_secs: 60,
            max_operations_per_window: 10,
            security_level: SecurityLevel::SensitiveEscalation,
            environmental_monitoring: true,
            crypto_algorithms: CryptoAlgorithmConfig {
                signature_algorithm: "Ed25519".to_owned(),
                encryption_algorithm: "AES-256-GCM".to_owned(),
                key_exchange_algorithm: "X25519".to_owned(),
                hash_algorithm: "SHA-256".to_owned(),
                hkdf_algorithm: "HKDF-SHA256".to_owned(),
            },
            enable_cross_channel_signatures: true,
            enable_mfa: true,
            enable_hsm: false,
            enable_zk_proofs: true,
            session_timeout_secs: 3600,
            key_rotation_interval_hours: 24,
        }
    }
}

/// Environmental conditions for risk assessment.
#[derive(Debug, Clone)]
pub struct EnvironmentalConditions {
    pub weather: WeatherCondition,
    pub visibility_cm: u32,
    pub time_of_day: TimeOfDay,
    pub location_type: String,
}

/// Security errors.
#[derive(Debug, Clone, PartialEq, Eq)]
pub enum SecurityError {
    InvalidPin,
    PinChangeRequired,
    TooManyAttempts,
    AccountLocked,
    PermissionDenied,
    RateLimitExceeded,
    InvalidPeerIdentity,
    CommandRevoked,
    BiometricFailed,
    PolicyViolation,
    CrossChannelSignatureFailed,
    ChannelBindingFailed,
    HSMError(String),
    ZKProofFailed,
    SessionIntegrityCompromised,
    ChannelValidationError(crate::channel_validator::ValidationError),
}

/// The bytes of a string.
pub open spec fn str_bytes(s: String) -> Seq<u8> {
    vstd::utf8::encode_utf8(s@)
}

fn string_bytes(s: &String) -> (r: &[u8])
    ensures
        r@ == str_bytes(*s),
{
    s.as_str().as_bytes()
}

/// Whether `needle` occurs in `hay`.
pub open spec fn contains_bytes(hay: Seq<u8>, needle: Seq<u8>) -> bool {
    exists|i: int| 0 <= i && i + needle.len() <= hay.len() && #[trigger] hay.subrange(i, i + needle.len()) == needle
}

fn bytes_contain(hay: &[u8], needle: &[u8]) -> (r: bool)
    ensures
        r == contains_bytes(hay@, needle@),
{
    if needle.len() > hay.len() {
        return false;
    }
    if needle.len() == 0 {
        assert(hay@.subrange(0, 0 + needle@.len() as int) =~= needle@);
        return true;
    }
    let mut i: usize = 0;
    let last = hay.len() - needle.len();
    while i <= last
        invariant
            last == hay@.len() - needle@.len(),
            needle@.len() <= hay@.len(),
            needle@.len() >= 1,
            hay@.len() <= usize::MAX,
            i <= hay@.len() - needle@.len() + 1,
            forall|j: int| 0 <= j < i ==> #[trigger] hay@.subrange(j, j + needle@.len()) != needle@,
        decreases hay@.len() - i,
    {
        let mut k: usize = 0;
        let mut same = true;
        while k < needle.len()
            invariant
                i <= last,
                last == hay@.len() - needle@.len(),
                needle@.len() <= hay@.len(),
                hay@.len() <= usize::MAX,
                k <= needle@.len(),
                same == (forall|m: int| 0 <= m < k ==> hay@[i + m] == needle@[m]),
            decreases needle@.len() - k,
        {
            if hay[i + k] != needle[k] {
                same = false;
            }
            k = k + 1;
        }
        if same {
            assert(hay@.subrange(i as int, i + needle@.len()) =~= needle@);
            return true;
        }
        proof {
            let m = choose|m: int| 0 <= m < needle@.len() && hay@[i + m] != needle@[m];
            assert(hay@.subrange(i as int, i + needle@.len())[m] != needle@[m]);
        }
        i = i + 1;
    }
    false
}

/// A peer identity of the form `GL-XXXX-XXXX`.
#[derive(Debug, Clone)]
pub struct PeerIdentity {
    pub id: String,
    pub trust_level: TrustLevel,
    /// Per-mille.
    pub risk_score_permille: u32,
    pub last_seen_ms: u64,
    pub location_context: Option<String>,
    pub environmental_risks: Vec<String>,
}

/// Identities that a peer may carry: the `GL-AB12-CDEF` format, twelve bytes
/// starting with `GL-`.
pub open spec fn valid_peer_id(id: Seq<u8>) -> bool {
    id.len() == 12 && id[0] == 71u8 && id[1] == 76u8 && id[2] == 45u8
}

/// Risk of the environment in per-mille: 0.1 in clear weather, 0.3 in rain,
/// fog or cloud, 0.5 in storms and heavy rain, 0.4 in snow; 0.2 more at
/// night and 0.1 more at dawn or dusk; 0.2 more in a public location;
/// at most 1.
pub open spec fn environmental_risk(weather: WeatherCondition, time: TimeOfDay, public_location: bool) -> nat {
    let w: nat = match weather {
        WeatherCondition::Clear => 100,
        WeatherCondition::Rain | WeatherCondition::Fog | WeatherCondition::LightRain | WeatherCondition::Cloudy => 300,
        WeatherCondition::Storm | WeatherCondition::HeavyRain => 500,
        WeatherCondition::Snow => 400,
    };
    let t: nat = match time {
        TimeOfDay::Night => 200,
        TimeOfDay::Dawn | TimeOfDay::Dusk => 100,
        TimeOfDay::Day => 0,
    };
    let l: nat = if public_location { 200 } else { 0 };
    if w + t + l > 1000 { 1000 } else { w + t + l }
}

/// The bytes of `public`.
pub open spec fn public_marker() -> Seq<u8> {
    seq![112u8, 117, 98, 108, 105, 99]
}

impl PeerIdentity {
    /// Parses a peer identity: twelve bytes starting with `GL-`, unknown trust,
    /// medium risk.
    pub fn from_string(id: &str, now_ms: u64) -> (r: Result<Self, SecurityError>)
        ensures
            valid_peer_id(id.spec_bytes()) ==> r is Ok && r->Ok_0.id@ == id@ && r->Ok_0.trust_level == TrustLevel::Unknown
                && r->Ok_0.risk_score_permille == 500 && r->Ok_0.last_seen_ms == now_ms && r->Ok_0.location_context is None,
            !valid_peer_id(id.spec_bytes()) ==> r == Err::<Self, SecurityError>(SecurityError::InvalidPeerIdentity),
    {
        let bytes = id.as_bytes();
        if bytes.len() != 12 || bytes[0] != 71u8 || bytes[1] != 76u8 || bytes[2] != 45u8 {
            return Err(SecurityError::InvalidPeerIdentity);
        }
        Ok(PeerIdentity {
            id: id.to_owned(),
            trust_level: TrustLevel::Unknown,
            risk_score_permille: 500,
            last_seen_ms: now_ms,
            location_context: None,
            environmental_risks: Vec::new(),
        })
    }

    /// Re-assesses the peer's risk from the environment and its location.
    pub fn update_risk_assessment(&mut self, conditions: &EnvironmentalConditions)
        ensures
            final(self).risk_score_permille == environmental_risk(
                conditions.weather,
                conditions.time_of_day,
                old(self).location_context matches Some(l) && contains_bytes(str_bytes(l), public_marker()),
            ),
            final(self).id == old(self).id,
            final(self).trust_level == old(self).trust_level,
            final(self).location_context == old(self).location_context,
    {
        let w: u32 = match conditions.weather {
            WeatherCondition::Clear => 100,
            WeatherCondition::Rain | WeatherCondition::Fog | WeatherCondition::LightRain | WeatherCondition::Cloudy => 300,
            WeatherCondition::Storm | WeatherCondition::HeavyRain => 500,
            WeatherCondition::Snow => 400,
        };
        let t: u32 = match conditions.time_of_day {
            TimeOfDay::Night => 200,
            TimeOfDay::Dawn | TimeOfDay::Dusk => 100,
            TimeOfDay::Day => 0,
        };
        let marker: [u8; 6] = [112u8, 117, 98, 108, 105, 99];
        assert(marker@ =~= public_marker());
        let public = match &self.location_context {
            Some(l) => bytes_contain(string_bytes(l), marker.as_slice()),
            None => false,
        };
        let l: u32 = if public { 200 } else { 0 };
        let total = w + t + l;
        self.risk_score_permille = if total > 1000 { 1000 } else { total };
    }
}

/// A command run under safeguards.
#[derive(Debug, Clone)]
pub struct CommandExecution {
    pub command_id: String,
    pub command_type: String,
    pub parameters: Vec<(String, String)>,
    pub timestamp_ms: u64,
    pub executed_by: String,
    /// Per-mille.
    pub risk_level_permille: u32,
    pub requires_approval: bool,
    pub approved_by: Option<String>,
    pub revoked: bool,
    pub tags: Vec<String>,
}

/// Cross-channel signature binding.
#[derive(Debug, Clone)]
pub struct CrossChannelSignature {
    pub laser_signature: Vec<u8>,
    pub ultrasound_signature: Vec<u8>,
    pub binding_proof: Vec<u8>,
    pub timestamp_ms: u64,
}

/// Key material of one channel.
#[derive(Debug)]
pub struct ChannelKeyMaterial {
    pub channel_type: ChannelType,
    pub master_key: [u8; 32],
    /// Keys derived for encryption, signing and binding, by purpose.
    pub derived_keys: Vec<(String, [u8; 32])>,
    pub key_version: u32,
    pub expiry_ms: Option<u64>,
}

impl Clone for ChannelKeyMaterial {
    fn clone(&self) -> (r: Self)
        ensures
            r.channel_type == self.channel_type,
            r.master_key == self.master_key,
            r.derived_keys@ == self.derived_keys@,
            r.key_version == self.key_version,
            r.expiry_ms == self.expiry_ms,
    {
        let mut keys: Vec<(String, [u8; 32])> = Vec::new();
        let mut k: usize = 0;
        while k < self.derived_keys.len()
            invariant
                k <= self.derived_keys@.len(),
                keys@ == self.derived_keys@.take(k as int),
            decreases self.derived_keys@.len() - k,
        {
            let name = self.derived_keys[k].0.clone();
            keys.push((name, self.derived_keys[k].1));
            k = k + 1;
            assert(keys@ =~= self.derived_keys@.take(k as int));
        }
        assert(self.derived_keys@.take(k as int) =~= self.derived_keys@);
        ChannelKeyMaterial {
            channel_type: self.channel_type,
            master_key: self.master_key,
            derived_keys: keys,
            key_version: self.key_version,
            expiry_ms: self.expiry_ms,
        }
    }
}

/// Multi-factor authentication state.
#[derive(Debug, Clone, Copy, PartialEq, Eq, Structural)]
pub struct MFAAuthentication {
    pub pin_verified: bool,
    pub biometric_verified: bool,
    pub laser_channel_verified: bool,
    pub ultrasound_channel_verified: bool,
    pub cross_channel_binding_verified: bool,
    pub last_verification_ms: u64,
}

/// Session integrity record.
#[derive(Debug)]
pub struct SessionIntegrity {
    pub session_id: String,
    pub integrity_hash: [u8; 32],
    pub sequence_number: u64,
    pub last_update_ms: u64,
}

impl Clone for SessionIntegrity {
    fn clone(&self) -> (r: Self)
        ensures
            r == *self,
    {
        SessionIntegrity {
            session_id: self.session_id.clone(),
            integrity_hash: self.integrity_hash,
            sequence_number: self.sequence_number,
            last_update_ms: self.last_update_ms,
        }
    }
}

/// Hardware security status.
#[derive(Debug, Clone, Copy, PartialEq, Eq, Structural)]
pub struct HardwareSecurityStatus {
    pub hsm_available: bool,
    pub hsm_type: HSMType,
    pub tamper_detected: bool,
    pub secure_boot_verified: bool,
    pub key_protection_active: bool,
}

/// Commitment proof over a channel's data.
#[derive(Debug, Clone)]
pub struct ZKChannelProof {
    pub proof_data: Vec<u8>,
    pub public_inputs: Vec<u8>,
    pub channel_commitment: [u8; 32],
    pub timestamp_ms: u64,
}

/// Key exchange state for channel binding.
#[derive(Debug, Clone)]
pub struct KeyExchangeState {
    pub session_id: String,
    pub ecdh_secret: [u8; 32],
    pub peer_public_key: Option<[u8; 32]>,
    pub shared_secret: Option<[u8; 32]>,
    pub channel_binding_hash: Option<[u8; 32]>,
    pub exchange_timestamp_ms: u64,
}

/// Cryptographic audit entry.
#[derive(Debug, Clone)]
pub struct CryptoAuditEntry {
    pub timestamp_ms: u64,
    pub operation: String,
    pub channel: Option<String>,
    pub key_id: Option<String>,
    pub success: bool,
    pub error_details: Option<String>,
    pub security_level: SecurityLevel,
}

/// Security status summary.
#[derive(Debug, Clone, Copy, PartialEq, Eq, Structural)]
pub struct SecurityStatus {
    pub pin_configured: bool,
    pub pin_change_required: bool,
    pub biometric_available: bool,
    pub failed_attempts: u32,
    pub locked_until_ms: Option<u64>,
    pub active_permissions: usize,
    pub denied_operations: usize,
    pub known_peers: usize,
    pub command_history_size: usize,
}

/// HKDF-style key derivation with HMAC-SHA256: the pseudo-random key is the
/// tag of `info` under `ikm`, and the output the tag of the byte 1 under it.
pub open spec fn hkdf_key(ikm: Seq<u8>, info: Seq<u8>) -> Seq<u8> {
    hmac_sha256(hmac_sha256(ikm, info), seq![1u8])
}

/// Risk of a command in per-mille: by type (shell or system 0.8, file
/// transfer 0.6, device control 0.5, network 0.4, others 0.2), plus 0.3 per
/// parameter whose name mentions a password or secret and 0.2 per parameter
/// whose value mentions admin or root, at most 1.
pub open spec fn type_risk(command_type: Seq<u8>) -> nat {
    if command_type == seq![115u8, 121, 115, 116, 101, 109] || command_type == seq![115u8, 104, 101, 108, 108] {
        800
    } else if command_type == seq![102u8, 105, 108, 101, 95, 116, 114, 97, 110, 115, 102, 101, 114] {
        600
    } else if command_type == seq![100u8, 101, 118, 105, 99, 101, 95, 99, 111, 110, 116, 114, 111, 108] {
        500
    } else if command_type == seq![110u8, 101, 116, 119, 111, 114, 107] {
        400
    } else {
        200
    }
}

pub open spec fn password_marker() -> Seq<u8> {
    seq![112u8, 97, 115, 115, 119, 111, 114, 100]
}

pub open spec fn secret_marker() -> Seq<u8> {
    seq![115u8, 101, 99, 114, 101, 116]
}

pub open spec fn admin_marker() -> Seq<u8> {
    seq![97u8, 100, 109, 105, 110]
}

pub open spec fn root_marker() -> Seq<u8> {
    seq![114u8, 111, 111, 116]
}

pub open spec fn parameter_risk(p: (String, String)) -> nat {
    let k = str_bytes(p.0);
    let v = str_bytes(p.1);
    (if contains_bytes(k, password_marker()) || contains_bytes(k, secret_marker()) { 300nat } else { 0nat })
        + (if contains_bytes(v, admin_marker()) || contains_bytes(v, root_marker()) { 200nat } else { 0nat })
}

pub open spec fn parameters_risk(ps: Seq<(String, String)>) -> nat
    decreases ps.len(),
{
    if ps.len() == 0 {
        0
    } else {
        parameters_risk(ps.drop_last()) + parameter_risk(ps.last())
    }
}

pub open spec fn command_risk(command_type: Seq<u8>, ps: Seq<(String, String)>) -> nat {
    let r = type_risk(command_type) + parameters_risk(ps);
    if r > 1000 { 1000 } else { r }
}

/// Number of audit entries kept.
pub const AUDIT_LOG_LIMIT: usize = 1000;

/// The security manager.
#[derive(Debug)]
pub struct SecurityManager {
    config: SecurityConfig,
    current_pin_hash: Option<[u8; 32]>,
    pin_change_required: bool,
    failed_attempts: u32,
    lockout_until_ms: Option<u64>,
    biometric_available: bool,
    active_permissions: Vec<(PermissionType, PermissionScope, PermissionGrant)>,
    denied_operations: usize,
    peer_identities: Vec<PeerIdentity>,
    command_history: Vec<CommandExecution>,
    rate_count: u32,
    rate_window_start_ms: Option<u64>,
    channel_keys: Vec<ChannelKeyMaterial>,
    mfa_state: MFAAuthentication,
    session_integrity: Option<SessionIntegrity>,
    hardware_security: HardwareSecurityStatus,
    audit_log: Vec<CryptoAuditEntry>,
    active_sessions: Vec<SessionIntegrity>,
    key_exchange_state: Option<KeyExchangeState>,
    zk_proofs: Vec<ZKChannelProof>,
}

/// Outcome of a PIN check and the failures and lockout after it. While
/// locked out every attempt is refused; an expired lockout clears the
/// failures. A PIN whose digest matches the stored one clears the failures;
/// any other counts a failure, and reaching the maximum locks the account
/// for the lockout duration.
pub open spec fn pin_outcome(
    hash: Option<Seq<u8>>,
    lockout: Option<u64>,
    failed: u32,
    max: u32,
    duration_secs: u64,
    pin: Seq<u8>,
    now: u64,
) -> (Result<(), SecurityError>, u32, Option<u64>) {
    if lockout matches Some(t) && now < t {
        (Err(SecurityError::AccountLocked), failed, lockout)
    } else {
        let f0: u32 = if lockout is Some { 0 } else { failed };
        if hash == Some(sha256(pin)) {
            (Ok(()), 0, None)
        } else {
            let f1: u32 = if f0 < u32::MAX { (f0 + 1) as u32 } else { f0 };
            (
                Err(if f1 >= max { SecurityError::AccountLocked } else { SecurityError::InvalidPin }),
                f1,
                lockout_after(f1, max, now, duration_secs),
            )
        }
    }
}

/// The stored PIN is accepted whenever the account is not locked out.
pub proof fn lemma_correct_pin_accepted(
    pin: Seq<u8>,
    lockout: Option<u64>,
    failed: u32,
    max: u32,
    duration_secs: u64,
    now: u64,
)
    requires
        !(lockout matches Some(t) && now < t),
    ensures
        pin_outcome(Some(sha256(pin)), lockout, failed, max, duration_secs, pin, now) == (
            Ok::<(), SecurityError>(()),
            0u32,
            None::<u64>,
        ),
{
}

/// Once a lockout has expired, the failures that led to it are forgotten:
/// any PIN is then judged exactly as on an account with no failures and no
/// lockout. In particular one wrong PIN counts a single failure, which is
/// refused as invalid without a new lockout when more than one attempt is
/// allowed.
pub proof fn lemma_expired_lockout_forgets_failures(
    hash: Option<Seq<u8>>,
    until: u64,
    failed: u32,
    max: u32,
    duration_secs: u64,
    pin: Seq<u8>,
    now: u64,
)
    requires
        until <= now,
    ensures
        pin_outcome(hash, Some(until), failed, max, duration_secs, pin, now) == pin_outcome(
            hash,
            None,
            0,
            max,
            duration_secs,
            pin,
            now,
        ),
        hash != Some(sha256(pin)) && max > 1 ==> pin_outcome(hash, Some(until), failed, max, duration_secs, pin, now) == (
            Err::<(), SecurityError>(SecurityError::InvalidPin),
            1u32,
            None::<u64>,
        ),
{
}

/// Without a lockout in force, a wrong PIN adds exactly one failure (up to
/// the counter's limit), and locks the account exactly when the failures
/// reach the maximum.
pub proof fn lemma_wrong_pin_counts_one_failure(
    hash: Option<Seq<u8>>,
    failed: u32,
    max: u32,
    duration_secs: u64,
    pin: Seq<u8>,
    now: u64,
)
    requires
        hash != Some(sha256(pin)),
        failed < u32::MAX,
    ensures
        pin_outcome(hash, None, failed, max, duration_secs, pin, now).1 == failed + 1,
        (pin_outcome(hash, None, failed, max, duration_secs, pin, now).2 is Some) <==> failed + 1 >= max,
        pin_outcome(hash, None, failed, max, duration_secs, pin, now).0 is Err,
{
}

/// While locked out, every PIN is refused, the right one too, and the
/// failures and lockout stay as they are.
pub proof fn lemma_locked_account_refuses(
    hash: Option<Seq<u8>>,
    until: u64,
    failed: u32,
    max: u32,
    duration_secs: u64,
    pin: Seq<u8>,
    now: u64,
)
    requires
        now < until,
    ensures
        pin_outcome(hash, Some(until), failed, max, duration_secs, pin, now) == (
            Err::<(), SecurityError>(SecurityError::AccountLocked),
            failed,
            Some(until),
        ),
{
}

/// Failures counted from a clean state by `n` wrong PINs at one instant,
/// with the resulting lockout.
pub open spec fn after_wrong_pins(n: nat, max: u32, duration_secs: u64, now: u64) -> (u32, Option<u64>)
    decreases n,
{
    if n == 0 {
        (0, None)
    } else {
        let (f, l) = after_wrong_pins((n - 1) as nat, max, duration_secs, now);
        if l matches Some(t) && now < t {
            (f, l)
        } else {
            let f0: u32 = if l is Some { 0 } else { f };
            let f1: u32 = if f0 < u32::MAX { (f0 + 1) as u32 } else { f0 };
            (f1, lockout_after(f1, max, now, duration_secs))
        }
    }
}

/// From a clean state, `max` wrong PINs in a row lock the account (for a
/// positive lockout duration), and no fewer do.
pub proof fn lemma_max_wrong_pins_lock(n: nat, max: u32, duration_secs: u64, now: u64)
    requires
        1 <= n <= max,
        duration_secs > 0,
        now < u64::MAX,
    ensures
        after_wrong_pins(n, max, duration_secs, now).0 == n,
        n < max ==> after_wrong_pins(n, max, duration_secs, now).1 is None,
        n == max ==> after_wrong_pins(n, max, duration_secs, now).1 == Some(sat_add(now as int, duration_secs * 1000)),
    decreases n,
{
    if n > 1 {
        lemma_max_wrong_pins_lock((n - 1) as nat, max, duration_secs, now);
    } else {
        assert(after_wrong_pins(0, max, duration_secs, now) == (0u32, None::<u64>));
    }
}

/// Lockout after `failed` failures at `now`: set once the failures reach
/// the maximum.
pub open spec fn lockout_after(failed: u32, max: u32, now: u64, duration_secs: u64) -> Option<u64> {
    if failed >= max {
        Some(sat_add(now as int, duration_secs * 1000))
    } else {
        None
    }
}

/// `a + b`, saturating at `u64::MAX`.
pub open spec fn sat_add(a: int, b: int) -> u64 {
    if a + b > u64::MAX { u64::MAX } else { (a + b) as u64 }
}

fn saturating_sum(a: u64, b: u64) -> (r: u64)
    ensures
        r == sat_add(a as int, b as int),
{
    a.saturating_add(b)
}

fn millis(secs: u64) -> (r: u64)
    ensures
        r == sat_add(0, secs * 1000),
{
    if secs > u64::MAX / 1000 { u64::MAX } else { secs * 1000 }
}

impl SecurityManager {
    pub closed spec fn config(&self) -> SecurityConfig {
        self.config
    }

    pub closed spec fn pin_hash(&self) -> Option<Seq<u8>> {
        match self.current_pin_hash {
            Some(h) => Some(h@),
            None => None,
        }
    }

    pub closed spec fn pin_change_needed(&self) -> bool {
        self.pin_change_required
    }

    pub closed spec fn failed(&self) -> u32 {
        self.failed_attempts
    }

    pub closed spec fn lockout(&self) -> Option<u64> {
        self.lockout_until_ms
    }

    pub closed spec fn permissions(&self) -> Seq<(PermissionType, PermissionScope, PermissionGrant)> {
        self.active_permissions@
    }

    pub closed spec fn peers(&self) -> Seq<PeerIdentity> {
        self.peer_identities@
    }

    pub closed spec fn commands(&self) -> Seq<CommandExecution> {
        self.command_history@
    }

    pub closed spec fn rate_count(&self) -> u32 {
        self.rate_count
    }

    pub closed spec fn rate_window_start(&self) -> Option<u64> {
        self.rate_window_start_ms
    }

    pub closed spec fn audit(&self) -> Seq<CryptoAuditEntry> {
        self.audit_log@
    }

    pub closed spec fn keys(&self) -> Seq<ChannelKeyMaterial> {
        self.channel_keys@
    }

    pub closed spec fn sessions(&self) -> Seq<SessionIntegrity> {
        self.active_sessions@
    }

    pub closed spec fn hardware(&self) -> HardwareSecurityStatus {
        self.hardware_security
    }

    pub closed spec fn proofs(&self) -> Seq<ZKChannelProof> {
        self.zk_proofs@
    }

    pub closed spec fn wf(&self) -> bool {
        self.audit_log@.len() <= AUDIT_LOG_LIMIT
    }

    pub fn new(config: SecurityConfig) -> (r: Self)
        ensures
            r.wf(),
            r.config() == config,
            r.pin_hash() is None,
            r.pin_change_needed() == config.pin_change_required,
            r.failed() == 0,
            r.lockout() is None,
            r.permissions().len() == 0,
            r.peers().len() == 0,
            r.commands().len() == 0,
            r.rate_window_start() is None,
            r.audit().len() == 0,
            r.keys().len() == 0,
            r.sessions().len() == 0,
            r.proofs().len() == 0,
            !r.hardware().hsm_available,
            r.hardware().hsm_type == HSMType::Software,
            !r.hardware().tamper_detected,
    {
        let biometric = config.biometric_enabled;
        let change = config.pin_change_required;
        SecurityManager {
            config,
            current_pin_hash: None,
            pin_change_required: change,
            failed_attempts: 0,
            lockout_until_ms: None,
            biometric_available: biometric,
            active_permissions: Vec::new(),
            denied_operations: 0,
            peer_identities: Vec::new(),
            command_history: Vec::new(),
            rate_count: 0,
            rate_window_start_ms: None,
            channel_keys: Vec::new(),
            mfa_state: MFAAuthentication {
                pin_verified: false,
                biometric_verified: false,
                laser_channel_verified: false,
                ultrasound_channel_verified: false,
                cross_channel_binding_verified: false,
                last_verification_ms: 0,
            },
            session_integrity: None,
            hardware_security: HardwareSecurityStatus {
                hsm_available: false,
                hsm_type: HSMType::Software,
                tamper_detected: false,
                secure_boot_verified: false,
                key_protection_active: false,
            },
            audit_log: Vec::new(),
            active_sessions: Vec::new(),
            key_exchange_state: None,
            zk_proofs: Vec::new(),
        }
    }

    pub fn pin_change_required(&self) -> (r: bool)
        ensures
            r == self.pin_change_needed(),
    {
        self.pin_change_required
    }

    /// Checks a PIN. While locked out every attempt is refused; an expired
    /// lockout clears the failures. A PIN whose digest matches the stored one
    /// clears the failures; any other counts a failure, and reaching the
    /// maximum locks the account for the lockout duration.
    pub fn validate_pin(&mut self, pin: &str, now_ms: u64) -> (r: Result<(), SecurityError>)
        ensures
            (r, final(self).failed(), final(self).lockout()) == pin_outcome(
                old(self).pin_hash(),
                old(self).lockout(),
                old(self).failed(),
                old(self).config().max_pin_attempts,
                old(self).config().lockout_duration_secs,
                pin.spec_bytes(),
                now_ms,
            ),
            final(self).wf() == old(self).wf(),
            final(self).config() == old(self).config(),
            final(self).pin_hash() == old(self).pin_hash(),
            final(self).pin_change_needed() == old(self).pin_change_needed(),
            final(self).permissions() == old(self).permissions(),
            final(self).rate_count() == old(self).rate_count(),
            final(self).rate_window_start() == old(self).rate_window_start(),
    {
        match self.lockout_until_ms {
            Some(until) => {
                if now_ms < until {
                    return Err(SecurityError::AccountLocked);
                }
                self.lockout_until_ms = None;
                self.failed_attempts = 0;
            },
            None => {},
        }
        let digest = sha256_digest(pin.as_bytes());
        let matches = match self.current_pin_hash {
            Some(h) => crate::crypto::bytes_equal(h.as_slice(), digest.as_slice()),
            None => false,
        };
        if !matches {
            self.failed_attempts = self.failed_attempts.saturating_add(1);
            if self.failed_attempts >= self.config.max_pin_attempts {
                self.lockout_until_ms = Some(saturating_sum(now_ms, millis(self.config.lockout_duration_secs)));
                return Err(SecurityError::AccountLocked);
            }
            return Err(SecurityError::InvalidPin);
        }
        self.failed_attempts = 0;
        Ok(())
    }

    /// Changes the PIN: the old PIN must validate when one is set, and the
    /// new one must have at least four bytes; the digest of the new PIN is
    /// stored and failures and lockout are cleared.
    pub fn change_pin(&mut self, old_pin: &str, new_pin: &str, now_ms: u64) -> (r: Result<(), SecurityError>)
        ensures
            old(self).pin_hash() is None && new_pin.spec_bytes().len() < 4 ==> r == Err::<(), SecurityError>(SecurityError::InvalidPin)
                && final(self).pin_hash() is None,
            r is Ok ==> new_pin.spec_bytes().len() >= 4 && final(self).pin_hash() == Some(sha256(new_pin.spec_bytes()))
                && !final(self).pin_change_needed() && final(self).failed() == 0 && final(self).lockout() is None,
            old(self).pin_hash() is None && new_pin.spec_bytes().len() >= 4 ==> r is Ok,
            old(self).pin_hash() is Some && old(self).pin_hash() == Some(sha256(old_pin.spec_bytes())) && !(old(self).lockout() matches Some(t) && now_ms < t)
                && new_pin.spec_bytes().len() >= 4 ==> r is Ok,
            old(self).pin_hash() is Some && old(self).pin_hash() != Some(sha256(old_pin.spec_bytes())) ==> r is Err
                && final(self).pin_hash() == old(self).pin_hash(),
            final(self).wf() == old(self).wf(),
            final(self).config() == old(self).config(),
            final(self).permissions() == old(self).permissions(),
    {
        if self.current_pin_hash.is_some() {
            self.validate_pin(old_pin, now_ms)?;
        }
        if new_pin.as_bytes().len() < 4 {
            return Err(SecurityError::InvalidPin);
        }
        self.current_pin_hash = Some(sha256_digest(new_pin.as_bytes()));
        self.pin_change_required = false;
        self.failed_attempts = 0;
        self.lockout_until_ms = None;
        Ok(())
    }

    /// Rate limiting over a fixed window: a window older than the configured
    /// length restarts at `now` with no operations; a full window refuses
    /// (returns true); otherwise the operation is counted.
    pub fn is_rate_limited(&mut self, now_ms: u64) -> (r: bool)
        ensures
            ({
                let start = match old(self).rate_window_start() { Some(s) => s, None => now_ms };
                let count0: u32 = if old(self).rate_window_start() is None { 0 } else { old(self).rate_count() };
                let expired = now_ms > start && now_ms - start > old(self).config().rate_limit_window_secs * 1000;
                let count: u32 = if expired { 0 } else { count0 };
                let window: u64 = if expired { now_ms } else { start };
                &&& r == (count >= old(self).config().max_operations_per_window)
                &&& final(self).rate_window_start() == Some(window)
                &&& final(self).rate_count() == (if r { count } else { (count + 1) as u32 })
            }),
            final(self).wf() == old(self).wf(),
            final(self).config() == old(self).config(),
            final(self).pin_hash() == old(self).pin_hash(),
            final(self).failed() == old(self).failed(),
            final(self).lockout() == old(self).lockout(),
            final(self).permissions() == old(self).permissions(),
            final(self).peers() == old(self).peers(),
            final(self).commands() == old(self).commands(),
    {
        let start = match self.rate_window_start_ms {
            Some(s) => s,
            None => {
                self.rate_count = 0;
                now_ms
            },
        };
        self.rate_window_start_ms = Some(start);
        let window_ms: u128 = (self.config.rate_limit_window_secs as u128) * 1000;
        if now_ms > start && ((now_ms - start) as u128) > window_ms {
            self.rate_count = 0;
            self.rate_window_start_ms = Some(now_ms);
        }
        if self.rate_count >= self.config.max_operations_per_window {
            return true;
        }
        self.rate_count = self.rate_count + 1;
        false
    }

    /// Counts an operation against the rate limit.
    pub fn record_operation(&mut self, now_ms: u64)
        ensures
            final(self).rate_count() == (if old(self).rate_window_start() is None { 1 } else if old(self).rate_count() < u32::MAX {
                old(self).rate_count() + 1
            } else {
                old(self).rate_count() as int
            }),
            old(self).rate_window_start() is None ==> final(self).rate_window_start() == Some(now_ms),
            old(self).rate_window_start() is Some ==> final(self).rate_window_start() == old(self).rate_window_start(),
            final(self).wf() == old(self).wf(),
            final(self).config() == old(self).config(),
            final(self).permissions() == old(self).permissions(),
    {
        match self.rate_window_start_ms {
            Some(_) => {
                self.rate_count = self.rate_count.saturating_add(1);
            },
            None => {
                self.rate_window_start_ms = Some(now_ms);
                self.rate_count = 1;
            },
        }
    }

    /// Index of the grant for a permission and scope, or the number of grants.
    fn find_grant(&self, permission: &PermissionType, scope: PermissionScope) -> (r: usize)
        ensures
            r <= self.permissions().len(),
            r < self.permissions().len() ==> same_permission(self.permissions()[r as int].0, *permission) && self.permissions()[r as int].1 == scope,
            r == self.permissions().len() ==> forall|i: int| 0 <= i < self.permissions().len() ==> !(same_permission(#[trigger] self.permissions()[i].0, *permission)
                && self.permissions()[i].1 == scope),
    {
        let mut k: usize = 0;
        while k < self.active_permissions.len()
            invariant
                k <= self.active_permissions@.len(),
                forall|i: int| 0 <= i < k ==> !(same_permission(#[trigger] self.active_permissions@[i].0, *permission) && self.active_permissions@[i].1 == scope),
            decreases self.active_permissions@.len() - k,
        {
            let entry = &self.active_permissions[k];
            if permission_equal(&entry.0, permission) && entry.1 == scope {
                return k;
            }
            k = k + 1;
        }
        k
    }

    /// Checks a permission: rate-limited operations are refused; at the
    /// minimum level only discussions pass; under sensitive escalation
    /// commands and file transfers are refused; when locked, only granted
    /// permission and scope pairs pass.
    pub fn check_permission(&mut self, permission: PermissionType, scope: PermissionScope, now_ms: u64) -> (r: Result<(), SecurityError>)
        ensures
            ({
                let granted = exists|i: int| 0 <= i < old(self).permissions().len() && same_permission(#[trigger] old(self).permissions()[i].0, permission)
                    && old(self).permissions()[i].1 == scope;
                let allowed = match old(self).config().security_level {
                    SecurityLevel::Minimum => permission == PermissionType::Discussion,
                    SecurityLevel::SensitiveEscalation => permission != PermissionType::Command && permission
                        != PermissionType::FileTransfer,
                    SecurityLevel::Locked => granted,
                };
                let limited = old(self).config().max_operations_per_window <= (if old(self).rate_window_start() is None
                    || (now_ms > old(self).rate_window_start()->0 && now_ms - old(self).rate_window_start()->0
                    > old(self).config().rate_limit_window_secs * 1000) {
                    0
                } else {
                    old(self).rate_count() as int
                });
                &&& limited ==> r == Err::<(), SecurityError>(SecurityError::RateLimitExceeded)
                &&& !limited && !allowed ==> r == Err::<(), SecurityError>(SecurityError::PermissionDenied)
                &&& !limited && allowed ==> r is Ok
            }),
            ({
                let start = match old(self).rate_window_start() { Some(s) => s, None => now_ms };
                let count0: u32 = if old(self).rate_window_start() is None { 0 } else { old(self).rate_count() };
                let expired = now_ms > start && now_ms - start > old(self).config().rate_limit_window_secs * 1000;
                let count: u32 = if expired { 0 } else { count0 };
                let window: u64 = if expired { now_ms } else { start };
                let limited = count >= old(self).config().max_operations_per_window;
                &&& final(self).rate_window_start() == Some(window)
                &&& final(self).rate_count() == (if limited { count } else { (count + 1) as u32 })
            }),
            final(self).failed() == old(self).failed(),
            final(self).lockout() == old(self).lockout(),
            final(self).wf() == old(self).wf(),
            final(self).config() == old(self).config(),
            final(self).pin_hash() == old(self).pin_hash(),
            final(self).permissions() == old(self).permissions(),
            final(self).peers() == old(self).peers(),
            final(self).commands() == old(self).commands(),
    {
        if self.is_rate_limited(now_ms) {
            return Err(SecurityError::RateLimitExceeded);
        }
        match self.config.security_level {
            SecurityLevel::Minimum => {
                match permission {
                    PermissionType::Discussion => {},
                    _ => {
                        return Err(SecurityError::PermissionDenied);
                    },
                }
            },
            SecurityLevel::SensitiveEscalation => {
                match permission {
                    PermissionType::Command | PermissionType::FileTransfer => {
                        return Err(SecurityError::PermissionDenied);
                    },
                    _ => {},
                }
            },
            SecurityLevel::Locked => {
                let k = self.find_grant(&permission, scope);
                if k >= self.active_permissions.len() {
                    return Err(SecurityError::PermissionDenied);
                }
            },
        }
        Ok(())
    }

    /// Grants a permission and scope for one hour, replacing an earlier grant
    /// of the same pair.
    pub fn grant_permission(&mut self, permission: PermissionType, scope: PermissionScope, granted_by: &str, now_ms: u64) -> (r: Result<(), SecurityError>)
        ensures
            r is Ok,
            exists|i: int| 0 <= i < final(self).permissions().len() && same_permission(#[trigger] final(self).permissions()[i].0, permission)
                && final(self).permissions()[i].1 == scope && final(self).permissions()[i].2.expires_at_ms == Some(
                sat_add(now_ms as int, 3_600_000),
            ),
            final(self).permissions().len() >= old(self).permissions().len(),
            forall|i: int| 0 <= i < old(self).permissions().len() ==> same_permission(final(self).permissions()[i].0, (#[trigger] old(self).permissions()[i]).0)
                && final(self).permissions()[i].1 == old(self).permissions()[i].1,
            final(self).wf() == old(self).wf(),
            final(self).config() == old(self).config(),
            final(self).pin_hash() == old(self).pin_hash(),
            final(self).rate_count() == old(self).rate_count(),
            final(self).rate_window_start() == old(self).rate_window_start(),
            final(self).peers() == old(self).peers(),
            final(self).commands() == old(self).commands(),
    {
        let grant = PermissionGrant {
            permission_type: permission.clone(),
            scope,
            granted_at_ms: now_ms,
            expires_at_ms: Some(saturating_sum(now_ms, 3_600_000)),
            granted_by: granted_by.to_owned(),
        };
        let k = self.find_grant(&permission, scope);
        let ghost before = self.active_permissions@;
        let ghost p = permission;
        if k < self.active_permissions.len() {
            self.active_permissions.set(k, (permission, scope, grant));
            assert(same_permission(self.active_permissions@[k as int].0, before[k as int].0));
            assert(same_permission(self.permissions()[k as int].0, p) && self.permissions()[k as int].1 == scope
                && self.permissions()[k as int].2.expires_at_ms == Some(sat_add(now_ms as int, 3_600_000)));
        } else {
            self.active_permissions.push((permission, scope, grant));
            let ghost n = before.len() as int;
            assert(same_permission(self.permissions()[n].0, p) && self.permissions()[n].1 == scope
                && self.permissions()[n].2.expires_at_ms == Some(sat_add(now_ms as int, 3_600_000)));
            assert forall|i: int| 0 <= i < before.len() implies same_permission(self.active_permissions@[i].0, (#[trigger] before[i]).0) by {
                assert(self.active_permissions@[i] == before[i]);
            }
        }
        Ok(())
    }
}

impl SecurityManager {
    /// Index of the peer with an identity, or the number of peers.
    fn find_peer(&self, id: &str) -> (r: usize)
        ensures
            r <= self.peers().len(),
            r < self.peers().len() ==> self.peers()[r as int].id@ == id@,
            r == self.peers().len() ==> forall|i: int| 0 <= i < self.peers().len() ==> (#[trigger] self.peers()[i]).id@ != id@,
    {
        let mut k: usize = 0;
        while k < self.peer_identities.len()
            invariant
                k <= self.peer_identities@.len(),
                forall|i: int| 0 <= i < k ==> (#[trigger] self.peer_identities@[i]).id@ != id@,
            decreases self.peer_identities@.len() - k,
        {
            if str_eq(self.peer_identities[k].id.as_str(), id) {
                return k;
            }
            k = k + 1;
        }
        k
    }

    /// Registers a peer with a trust level, replacing an earlier record of the
    /// same identity; malformed identities are refused.
    pub fn register_peer(&mut self, peer_id: &str, initial_trust: TrustLevel, now_ms: u64) -> (r: Result<(), SecurityError>)
        ensures
            !valid_peer_id(peer_id.spec_bytes()) ==> r == Err::<(), SecurityError>(SecurityError::InvalidPeerIdentity)
                && final(self).peers() == old(self).peers(),
            valid_peer_id(peer_id.spec_bytes()) ==> r is Ok && exists|i: int| 0 <= i < final(self).peers().len()
                && (#[trigger] final(self).peers()[i]).id@ == peer_id@ && final(self).peers()[i].trust_level == initial_trust
                && final(self).peers()[i].risk_score_permille == 500,
            final(self).wf() == old(self).wf(),
            final(self).config() == old(self).config(),
            final(self).permissions() == old(self).permissions(),
            final(self).commands() == old(self).commands(),
    {
        let mut peer = PeerIdentity::from_string(peer_id, now_ms)?;
        peer.trust_level = initial_trust;
        let k = self.find_peer(peer_id);
        if k < self.peer_identities.len() {
            self.peer_identities.set(k, peer);
            assert(self.peers()[k as int].id@ == peer_id@);
        } else {
            self.peer_identities.push(peer);
            assert(self.peers()[k as int].id@ == peer_id@);
        }
        Ok(())
    }

    /// The risk of a registered peer, per-mille.
    pub fn get_peer_risk(&self, peer_id: &str) -> (r: Result<u32, SecurityError>)
        ensures
            (forall|i: int| 0 <= i < self.peers().len() ==> (#[trigger] self.peers()[i]).id@ != peer_id@) ==> r
                == Err::<u32, SecurityError>(SecurityError::InvalidPeerIdentity),
            r is Ok ==> exists|i: int| 0 <= i < self.peers().len() && (#[trigger] self.peers()[i]).id@ == peer_id@
                && self.peers()[i].risk_score_permille == r->Ok_0,
    {
        let k = self.find_peer(peer_id);
        if k < self.peer_identities.len() {
            Ok(self.peer_identities[k].risk_score_permille)
        } else {
            Err(SecurityError::InvalidPeerIdentity)
        }
    }

    /// Runs a command under safeguards: high-risk commands (above 0.7) are
    /// refused when locked, commands that need approval must carry it, and
    /// revoked commands are refused; accepted commands join the history.
    pub fn execute_command(&mut self, command: CommandExecution) -> (r: Result<(), SecurityError>)
        ensures
            ({
                let risky = command.risk_level_permille > 700 && old(self).config().security_level == SecurityLevel::Locked;
                let unapproved = command.requires_approval && command.approved_by is None;
                &&& risky ==> r == Err::<(), SecurityError>(SecurityError::PermissionDenied)
                &&& !risky && unapproved ==> r == Err::<(), SecurityError>(SecurityError::PermissionDenied)
                &&& !risky && !unapproved && command.revoked ==> r == Err::<(), SecurityError>(SecurityError::CommandRevoked)
                &&& r is Err ==> final(self).commands() == old(self).commands()
                &&& r is Ok <==> !risky && !unapproved && !command.revoked
                &&& r is Ok ==> final(self).commands() == old(self).commands().push(command)
            }),
            final(self).wf() == old(self).wf(),
            final(self).config() == old(self).config(),
            final(self).permissions() == old(self).permissions(),
            final(self).peers() == old(self).peers(),
    {
        if command.risk_level_permille > 700 && self.config.security_level == SecurityLevel::Locked {
            return Err(SecurityError::PermissionDenied);
        }
        if command.requires_approval && command.approved_by.is_none() {
            return Err(SecurityError::PermissionDenied);
        }
        if command.revoked {
            return Err(SecurityError::CommandRevoked);
        }
        self.command_history.push(command);
        Ok(())
    }

    /// Revokes the first command with an id, tagging it `revoked`; an unknown
    /// id is reported as a revoked command.
    pub fn revoke_command(&mut self, command_id: &str) -> (r: Result<(), SecurityError>)
        ensures
            (forall|i: int| 0 <= i < old(self).commands().len() ==> (#[trigger] old(self).commands()[i]).command_id@ != command_id@)
                ==> r == Err::<(), SecurityError>(SecurityError::CommandRevoked) && final(self).commands() == old(self).commands(),
            r is Ok ==> exists|i: int| 0 <= i < final(self).commands().len() && (#[trigger] final(self).commands()[i]).command_id@
                == command_id@ && final(self).commands()[i].revoked && (forall|j: int| 0 <= j < i ==> (#[trigger] old(self).commands()[j]).command_id@
                != command_id@) && final(self).commands() == old(self).commands().update(i, final(self).commands()[i]),
            final(self).commands().len() == old(self).commands().len(),
            final(self).wf() == old(self).wf(),
            final(self).config() == old(self).config(),
            final(self).permissions() == old(self).permissions(),
            final(self).peers() == old(self).peers(),
    {
        let mut k: usize = 0;
        while k < self.command_history.len()
            invariant
                k <= self.command_history@.len(),
                *self == *old(self),
                forall|i: int| 0 <= i < k ==> (#[trigger] self.command_history@[i]).command_id@ != command_id@,
            decreases self.command_history@.len() - k,
        {
            if str_eq(self.command_history[k].command_id.as_str(), command_id) {
                let ghost before = self.command_history@;
                assert(old(self).commands()[k as int].command_id@ == command_id@);
                let mut cmd = self.command_history.remove(k);
                cmd.revoked = true;
                cmd.tags.push("revoked".to_owned());
                self.command_history.insert(k, cmd);
                assert(self.commands()[k as int].command_id@ == command_id@);
                assert(self.commands() =~= before.update(k as int, self.commands()[k as int]));
                return Ok(());
            }
            k = k + 1;
        }
        Err(SecurityError::CommandRevoked)
    }

    pub fn get_security_status(&self) -> (r: SecurityStatus)
        ensures
            r.pin_configured == self.pin_hash() is Some,
            r.pin_change_required == self.pin_change_needed(),
            r.failed_attempts == self.failed(),
            r.locked_until_ms == self.lockout(),
            r.active_permissions == self.permissions().len(),
            r.denied_operations == 0,
            r.known_peers == self.peers().len(),
            r.command_history_size == self.commands().len(),
    {
        SecurityStatus {
            pin_configured: self.current_pin_hash.is_some(),
            pin_change_required: self.pin_change_required,
            biometric_available: self.biometric_available,
            failed_attempts: self.failed_attempts,
            locked_until_ms: self.lockout_until_ms,
            active_permissions: self.active_permissions.len(),
            denied_operations: 0,
            known_peers: self.peer_identities.len(),
            command_history_size: self.command_history.len(),
        }
    }

    /// HKDF-style derivation with HMAC-SHA256.
    pub fn hkdf_derive_key(&self, ikm: &[u8], info: &[u8]) -> (r: Result<[u8; 32], SecurityError>)
        ensures
            r is Ok && r->Ok_0@ == hkdf_key(ikm@, info@),
    {
        let prk = hmac_sha256_tag(ikm, info);
        let counter: [u8; 1] = [1u8];
        assert(counter@ =~= seq![1u8]);
        Ok(hmac_sha256_tag(prk.as_slice(), counter.as_slice()))
    }

    /// The cross-channel binding key of the laser and ultrasound master keys:
    /// refused unless both channels have key material.
    pub fn cross_channel_binding_key(&self) -> (r: Result<[u8; 32], SecurityError>)
        ensures
            (forall|i: int| 0 <= i < self.keys().len() ==> (#[trigger] self.keys()[i]).channel_type != ChannelType::Laser)
                || (forall|i: int| 0 <= i < self.keys().len() ==> (#[trigger] self.keys()[i]).channel_type != ChannelType::Ultrasound)
                ==> r == Err::<[u8; 32], SecurityError>(SecurityError::ChannelBindingFailed),
            r is Ok ==> exists|i: int, j: int| 0 <= i < self.keys().len() && 0 <= j < self.keys().len()
                && (#[trigger] self.keys()[i]).channel_type == ChannelType::Laser && (#[trigger] self.keys()[j]).channel_type == ChannelType::Ultrasound
                && r->Ok_0@ == hkdf_key(self.keys()[i].master_key@ + self.keys()[j].master_key@, binding_label()),
    {
        let l = self.find_key(ChannelType::Laser);
        let u = self.find_key(ChannelType::Ultrasound);
        if l >= self.channel_keys.len() || u >= self.channel_keys.len() {
            return Err(SecurityError::ChannelBindingFailed);
        }
        let mut combined: Vec<u8> = Vec::new();
        push_bytes(&mut combined, self.channel_keys[l].master_key.as_slice());
        push_bytes(&mut combined, self.channel_keys[u].master_key.as_slice());
        let label: [u8; 21] = [99u8, 114, 111, 115, 115, 95, 99, 104, 97, 110, 110, 101, 108, 95, 98, 105, 110, 100, 105, 110, 103];
        assert(label@ =~= binding_label());
        self.hkdf_derive_key(combined.as_slice(), label.as_slice())
    }

    fn find_key(&self, channel: ChannelType) -> (r: usize)
        ensures
            r <= self.keys().len(),
            r < self.keys().len() ==> self.keys()[r as int].channel_type == channel,
            r == self.keys().len() ==> forall|i: int| 0 <= i < self.keys().len() ==> (#[trigger] self.keys()[i]).channel_type != channel,
    {
        let mut k: usize = 0;
        while k < self.channel_keys.len()
            invariant
                k <= self.channel_keys@.len(),
                forall|i: int| 0 <= i < k ==> (#[trigger] self.channel_keys@[i]).channel_type != channel,
            decreases self.channel_keys@.len() - k,
        {
            if self.channel_keys[k].channel_type == channel {
                return k;
            }
            k = k + 1;
        }
        k
    }

    /// Appends an audit entry, keeping the newest thousand.
    fn log_crypto_operation(&mut self, operation: &str, channel: Option<String>, success: bool, now_ms: u64)
        requires
            old(self).wf(),
        ensures
            final(self).wf(),
            final(self).audit() == crate::optical_ecc::bounded_push(old(self).audit(), final(self).audit().last(), AUDIT_LOG_LIMIT as nat),
            final(self).audit().last().success == success,
            final(self).audit().last().timestamp_ms == now_ms,
            final(self).audit().last().operation@ == operation@,
            final(self).config() == old(self).config(),
            final(self).keys() == old(self).keys(),
            final(self).sessions() == old(self).sessions(),
            final(self).proofs() == old(self).proofs(),
            final(self).hardware() == old(self).hardware(),
            final(self).permissions() == old(self).permissions(),
            final(self).peers() == old(self).peers(),
            final(self).commands() == old(self).commands(),
    {
        let entry = CryptoAuditEntry {
            timestamp_ms: now_ms,
            operation: operation.to_owned(),
            channel,
            key_id: None,
            success,
            error_details: None,
            security_level: self.config.security_level,
        };
        let ghost before = self.audit_log@;
        self.audit_log.push(entry);
        let ghost pushed = self.audit_log@;
        if self.audit_log.len() > AUDIT_LOG_LIMIT {
            let _ = self.audit_log.remove(0);
            assert(self.audit_log@ =~= pushed.drop_first());
        }
        assert(pushed == before.push(self.audit_log@.last()));
    }

    /// Derives a channel's key material from a seed: the master key, then
    /// encryption, signing and binding keys from it, valid for an hour; it
    /// replaces the channel's earlier material and is logged.
    pub fn derive_channel_keys(&mut self, channel_type: ChannelType, master_seed: &[u8], now_ms: u64) -> (r: Result<ChannelKeyMaterial, SecurityError>)
        requires
            old(self).wf(),
        ensures
            r is Ok,
            r->Ok_0.channel_type == channel_type,
            r->Ok_0.master_key@ == hkdf_key(master_seed@, seq![109u8, 97, 115, 116, 101, 114]),
            r->Ok_0.derived_keys@.len() == 3,
            r->Ok_0.derived_keys@[0].1@ == hkdf_key(r->Ok_0.master_key@, seq![101u8, 110, 99, 114, 121, 112, 116, 105, 111, 110]),
            r->Ok_0.derived_keys@[1].1@ == hkdf_key(r->Ok_0.master_key@, seq![115u8, 105, 103, 110, 105, 110, 103]),
            r->Ok_0.derived_keys@[2].1@ == hkdf_key(r->Ok_0.master_key@, seq![98u8, 105, 110, 100, 105, 110, 103]),
            r->Ok_0.key_version == 1,
            r->Ok_0.expiry_ms == Some(sat_add(now_ms as int, 3_600_000)),
            exists|i: int| 0 <= i < final(self).keys().len() && (#[trigger] final(self).keys()[i]).channel_type == channel_type
                && final(self).keys()[i].master_key@ == r->Ok_0.master_key@,
            final(self).wf(),
            final(self).audit().len() >= 1,
            final(self).config() == old(self).config(),
            final(self).permissions() == old(self).permissions(),
    {
        let master_label: [u8; 6] = [109u8, 97, 115, 116, 101, 114];
        assert(master_label@ =~= seq![109u8, 97, 115, 116, 101, 114]);
        let master_key = self.hkdf_derive_key(master_seed, master_label.as_slice())?;
        let enc_label: [u8; 10] = [101u8, 110, 99, 114, 121, 112, 116, 105, 111, 110];
        let sign_label: [u8; 7] = [115u8, 105, 103, 110, 105, 110, 103];
        let bind_label: [u8; 7] = [98u8, 105, 110, 100, 105, 110, 103];
        assert(enc_label@ =~= seq![101u8, 110, 99, 114, 121, 112, 116, 105, 111, 110]);
        assert(sign_label@ =~= seq![115u8, 105, 103, 110, 105, 110, 103]);
        assert(bind_label@ =~= seq![98u8, 105, 110, 100, 105, 110, 103]);
        let enc = self.hkdf_derive_key(master_key.as_slice(), enc_label.as_slice())?;
        let sign = self.hkdf_derive_key(master_key.as_slice(), sign_label.as_slice())?;
        let bind = self.hkdf_derive_key(master_key.as_slice(), bind_label.as_slice())?;
        let mut derived_keys: Vec<(String, [u8; 32])> = Vec::new();
        derived_keys.push(("encryption".to_owned(), enc));
        derived_keys.push(("signing".to_owned(), sign));
        derived_keys.push(("binding".to_owned(), bind));
        let material = ChannelKeyMaterial {
            channel_type,
            master_key,
            derived_keys,
            key_version: 1,
            expiry_ms: Some(saturating_sum(now_ms, 3_600_000)),
        };
        let k = self.find_key(channel_type);
        let stored = material.clone();
        if k < self.channel_keys.len() {
            self.channel_keys.set(k, stored);
        } else {
            self.channel_keys.push(stored);
        }
        assert(self.keys()[k as int].channel_type == channel_type);
        self.log_crypto_operation("key_derivation", None, true, now_ms);
        Ok(material)
    }

    /// The integrity hash of a session: SHA-256 of its id and sequence
    /// number (big-endian).
    fn compute_session_hash(session_id: &str, sequence: u64) -> (r: [u8; 32])
        ensures
            r@ == session_hash(session_id@, sequence),
    {
        let mut data: Vec<u8> = Vec::new();
        push_bytes(&mut data, session_id.as_bytes());
        push_be_u64(&mut data, sequence);
        sha256_digest(data.as_slice())
    }

    /// Creates the integrity record of a session at sequence zero and makes
    /// it the current and an active session.
    pub fn create_session_integrity(&mut self, session_id: &str, now_ms: u64) -> (r: Result<SessionIntegrity, SecurityError>)
        ensures
            r is Ok,
            r->Ok_0.session_id@ == session_id@,
            r->Ok_0.sequence_number == 0,
            r->Ok_0.integrity_hash@ == session_hash(session_id@, 0),
            exists|i: int| 0 <= i < final(self).sessions().len() && (#[trigger] final(self).sessions()[i]).session_id@ == session_id@
                && final(self).sessions()[i].sequence_number == 0 && final(self).sessions()[i].integrity_hash@ == session_hash(session_id@, 0)
                && (forall|j: int| 0 <= j < i ==> (#[trigger] final(self).sessions()[j]).session_id@ != session_id@),
            final(self).wf() == old(self).wf(),
            final(self).config() == old(self).config(),
    {
        let integrity_hash = Self::compute_session_hash(session_id, 0);
        let record = SessionIntegrity {
            session_id: session_id.to_owned(),
            integrity_hash,
            sequence_number: 0,
            last_update_ms: now_ms,
        };
        self.session_integrity = Some(record.clone());
        let k = self.find_session(session_id);
        let stored = record.clone();
        if k < self.active_sessions.len() {
            self.active_sessions.set(k, stored);
        } else {
            self.active_sessions.push(stored);
        }
        assert(self.sessions()[k as int].session_id@ == session_id@);
        Ok(record)
    }

    fn find_session(&self, session_id: &str) -> (r: usize)
        ensures
            r <= self.sessions().len(),
            r < self.sessions().len() ==> self.sessions()[r as int].session_id@ == session_id@,
            forall|i: int| 0 <= i < r ==> (#[trigger] self.sessions()[i]).session_id@ != session_id@,
    {
        let mut k: usize = 0;
        while k < self.active_sessions.len()
            invariant
                k <= self.active_sessions@.len(),
                forall|i: int| 0 <= i < k ==> (#[trigger] self.active_sessions@[i]).session_id@ != session_id@,
            decreases self.active_sessions@.len() - k,
        {
            if str_eq(self.active_sessions[k].session_id.as_str(), session_id) {
                return k;
            }
            k = k + 1;
        }
        k
    }

    /// Verifies a session: it must be active, at the expected sequence
    /// number, with the integrity hash of its id and that number.
    pub fn verify_session_integrity(&self, session_id: &str, expected_sequence: u64) -> (r: Result<(), SecurityError>)
        ensures
            ({
                let i = first_session(self.sessions(), session_id@);
                let found = i < self.sessions().len();
                &&& !found ==> r == Err::<(), SecurityError>(SecurityError::SessionIntegrityCompromised)
                &&& found ==> (r is Ok <==> self.sessions()[i].sequence_number == expected_sequence
                    && self.sessions()[i].integrity_hash@ == session_hash(session_id@, expected_sequence))
                &&& r is Err ==> r == Err::<(), SecurityError>(SecurityError::SessionIntegrityCompromised)
            }),
    {
        let k = self.find_session(session_id);
        proof {
            lemma_first_session(self.sessions(), session_id@, k as int);
        }
        if k >= self.active_sessions.len() {
            return Err(SecurityError::SessionIntegrityCompromised);
        }
        let session = &self.active_sessions[k];
        if session.sequence_number != expected_sequence {
            return Err(SecurityError::SessionIntegrityCompromised);
        }
        let current = Self::compute_session_hash(session_id, expected_sequence);
        if !crate::crypto::bytes_equal(current.as_slice(), session.integrity_hash.as_slice()) {
            return Err(SecurityError::SessionIntegrityCompromised);
        }
        Ok(())
    }

    /// Marks the hardware security module available and protecting keys, and logs it.
    pub fn initialize_hsm(&mut self, hsm_type: HSMType, now_ms: u64) -> (r: Result<(), SecurityError>)
        requires
            old(self).wf(),
        ensures
            r is Ok,
            final(self).wf(),
            final(self).hardware() == (HardwareSecurityStatus {
                hsm_available: true,
                hsm_type,
                key_protection_active: true,
                ..old(self).hardware()
            }),
            final(self).config() == old(self).config(),
    {
        self.hardware_security.hsm_available = true;
        self.hardware_security.hsm_type = hsm_type;
        self.hardware_security.key_protection_active = true;
        self.log_crypto_operation("hsm_init", None, true, now_ms);
        Ok(())
    }

    /// A commitment proof over channel data: the commitment is the data's
    /// SHA-256 digest, the proof data the data followed by the commitment.
    pub fn generate_zk_channel_proof(&mut self, channel_data: &[u8], channel_type: ChannelType, now_ms: u64) -> (r: Result<ZKChannelProof, SecurityError>)
        requires
            old(self).wf(),
        ensures
            r is Ok,
            r->Ok_0.channel_commitment@ == sha256(channel_data@),
            r->Ok_0.proof_data@ == channel_data@ + sha256(channel_data@),
            r->Ok_0.public_inputs@ == sha256(channel_data@),
            final(self).proofs().len() == old(self).proofs().len() + 1,
            final(self).wf(),
            final(self).config() == old(self).config(),
    {
        let commitment = sha256_digest(channel_data);
        let mut proof_data: Vec<u8> = Vec::new();
        push_bytes(&mut proof_data, channel_data);
        push_bytes(&mut proof_data, commitment.as_slice());
        let proof = ZKChannelProof {
            proof_data,
            public_inputs: vstd::slice::slice_to_vec(commitment.as_slice()),
            channel_commitment: commitment,
            timestamp_ms: now_ms,
        };
        self.zk_proofs.push(proof.clone());
        self.log_crypto_operation("zk_proof", None, true, now_ms);
        Ok(proof)
    }

    /// Checks a commitment proof: the digest of the proof data must equal
    /// the commitment. The outcome is logged.
    pub fn verify_zk_channel_proof(&mut self, proof: &ZKChannelProof, now_ms: u64) -> (r: Result<bool, SecurityError>)
        requires
            old(self).wf(),
        ensures
            r == Ok::<bool, SecurityError>(sha256(proof.proof_data@) == proof.channel_commitment@),
            final(self).wf(),
            final(self).audit().last().success == (sha256(proof.proof_data@) == proof.channel_commitment@),
            final(self).config() == old(self).config(),
    {
        let recomputed = sha256_digest(proof.proof_data.as_slice());
        let ok = crate::crypto::bytes_equal(recomputed.as_slice(), proof.channel_commitment.as_slice());
        self.log_crypto_operation("zk_verify", None, ok, now_ms);
        Ok(ok)
    }

    pub fn get_crypto_audit_log(&self) -> (r: &Vec<CryptoAuditEntry>)
        ensures
            r@ == self.audit(),
    {
        &self.audit_log
    }

    pub fn get_hardware_security_status(&self) -> (r: HardwareSecurityStatus)
        ensures
            r == self.hardware(),
    {
        self.hardware_security
    }

    /// Whether no tampering was detected; the check is logged.
    pub fn check_hardware_integrity(&mut self, now_ms: u64) -> (r: Result<bool, SecurityError>)
        requires
            old(self).wf(),
        ensures
            r == Ok::<bool, SecurityError>(!old(self).hardware().tamper_detected),
            final(self).wf(),
            final(self).audit().last().success == !old(self).hardware().tamper_detected,
            final(self).hardware() == old(self).hardware(),
    {
        let ok = !self.hardware_security.tamper_detected;
        self.log_crypto_operation("tamper_check", None, ok, now_ms);
        Ok(ok)
    }

    /// Risk of a command, per-mille.
    pub fn calculate_command_risk(&self, command_type: &str, parameters: &Vec<(String, String)>) -> (r: u32)
        ensures
            r == command_risk(command_type.spec_bytes(), parameters@),
            r <= 1000,
    {
        let t = command_type.as_bytes();
        let system: [u8; 6] = [115u8, 121, 115, 116, 101, 109];
        let shell: [u8; 5] = [115u8, 104, 101, 108, 108];
        let file_transfer: [u8; 13] = [102u8, 105, 108, 101, 95, 116, 114, 97, 110, 115, 102, 101, 114];
        let device_control: [u8; 14] = [100u8, 101, 118, 105, 99, 101, 95, 99, 111, 110, 116, 114, 111, 108];
        let network: [u8; 7] = [110u8, 101, 116, 119, 111, 114, 107];
        assert(system@ =~= seq![115u8, 121, 115, 116, 101, 109]);
        assert(shell@ =~= seq![115u8, 104, 101, 108, 108]);
        assert(file_transfer@ =~= seq![102u8, 105, 108, 101, 95, 116, 114, 97, 110, 115, 102, 101, 114]);
        assert(device_control@ =~= seq![100u8, 101, 118, 105, 99, 101, 95, 99, 111, 110, 116, 114, 111, 108]);
        assert(network@ =~= seq![110u8, 101, 116, 119, 111, 114, 107]);
        let base: u64 = if crate::crypto::bytes_equal(t, system.as_slice()) || crate::crypto::bytes_equal(t, shell.as_slice()) {
            800
        } else if crate::crypto::bytes_equal(t, file_transfer.as_slice()) {
            600
        } else if crate::crypto::bytes_equal(t, device_control.as_slice()) {
            500
        } else if crate::crypto::bytes_equal(t, network.as_slice()) {
            400
        } else {
            200
        };
        let password: [u8; 8] = [112u8, 97, 115, 115, 119, 111, 114, 100];
        let secret: [u8; 6] = [115u8, 101, 99, 114, 101, 116];
        let admin: [u8; 5] = [97u8, 100, 109, 105, 110];
        let root: [u8; 4] = [114u8, 111, 111, 116];
        assert(password@ =~= password_marker());
        assert(secret@ =~= secret_marker());
        assert(admin@ =~= admin_marker());
        assert(root@ =~= root_marker());
        let mut extra: u128 = 0;
        let mut k: usize = 0;
        while k < parameters.len()
            invariant
                k <= parameters@.len(),
                extra == parameters_risk(parameters@.take(k as int)),
                extra <= 500 * k,
                password@ == password_marker(),
                secret@ == secret_marker(),
                admin@ == admin_marker(),
                root@ == root_marker(),
            decreases parameters@.len() - k,
        {
            assert(parameters@.take(k + 1).drop_last() =~= parameters@.take(k as int));
            let key = string_bytes(&parameters[k].0);
            let value = string_bytes(&parameters[k].1);
            if bytes_contain(key, password.as_slice()) || bytes_contain(key, secret.as_slice()) {
                extra = extra + 300;
            }
            if bytes_contain(value, admin.as_slice()) || bytes_contain(value, root.as_slice()) {
                extra = extra + 200;
            }
            k = k + 1;
        }
        assert(parameters@.take(k as int) =~= parameters@);
        let total = base as u128 + extra;
        if total > 1000 {
            1000
        } else {
            total as u32
        }
    }
}

/// The label under which channel keys are bound: `cross_channel_binding`.
pub open spec fn binding_label() -> Seq<u8> {
    seq![99u8, 114, 111, 115, 115, 95, 99, 104, 97, 110, 110, 101, 108, 95, 98, 105, 110, 100, 105, 110, 103]
}

/// The integrity hash of a session id at a sequence number.
pub open spec fn session_hash(session_id: Seq<char>, sequence: u64) -> Seq<u8> {
    sha256(vstd::utf8::encode_utf8(session_id) + be_bytes_u64(sequence))
}

/// Index of the first session with an id, or the number of sessions.
pub open spec fn first_session(sessions: Seq<SessionIntegrity>, id: Seq<char>) -> int
    decreases sessions.len(),
{
    if sessions.len() == 0 {
        0
    } else if sessions[0].session_id@ == id {
        0
    } else {
        1 + first_session(sessions.drop_first(), id)
    }
}

proof fn lemma_first_session(sessions: Seq<SessionIntegrity>, id: Seq<char>, k: int)
    requires
        0 <= k <= sessions.len(),
        k < sessions.len() ==> sessions[k].session_id@ == id,
        forall|i: int| 0 <= i < k ==> (#[trigger] sessions[i]).session_id@ != id,
    ensures
        first_session(sessions, id) == k,
    decreases k,
{
    if k > 0 {
        let rest = sessions.drop_first();
        assert forall|i: int| 0 <= i < k - 1 implies (#[trigger] rest[i]).session_id@ != id by {
            assert(rest[i] == sessions[i + 1]);
        }
        lemma_first_session(rest, id, k - 1);
    } else if sessions.len() > 0 {
        assert(sessions[0].session_id@ == id);
    }
}

/// A session just created verifies at sequence zero.
pub proof fn lemma_created_session_verifies(sessions: Seq<SessionIntegrity>, id: Seq<char>, i: int)
    requires
        0 <= i < sessions.len(),
        sessions[i].session_id@ == id,
        sessions[i].sequence_number == 0,
        sessions[i].integrity_hash@ == session_hash(id, 0),
        forall|j: int| 0 <= j < i ==> (#[trigger] sessions[j]).session_id@ != id,
    ensures
        first_session(sessions, id) == i,
        sessions[first_session(sessions, id)].sequence_number == 0,
        sessions[first_session(sessions, id)].integrity_hash@ == session_hash(id, 0),
{
    lemma_first_session(sessions, id, i);
}

/// Whether two strings are equal.
fn str_eq(a: &str, b: &str) -> (r: bool)
    ensures
        r == (a@ == b@),
{
    let same = crate::crypto::bytes_equal(a.as_bytes(), b.as_bytes());
    proof {
        vstd::utf8::encode_utf8_decode_utf8(a@);
        vstd::utf8::encode_utf8_decode_utf8(b@);
    }
    same
}

/// Whether two permission types name the same permission.
pub open spec fn same_permission(a: PermissionType, b: PermissionType) -> bool {
    match (a, b) {
        (PermissionType::Other(x), PermissionType::Other(y)) => x@ == y@,
        (PermissionType::Other(_), _) => false,
        (_, PermissionType::Other(_)) => false,
        _ => a == b,
    }
}

fn permission_equal(a: &PermissionType, b: &PermissionType) -> (r: bool)
    ensures
        r == same_permission(*a, *b),
{
    match (a, b) {
        (PermissionType::Discussion, PermissionType::Discussion) => true,
        (PermissionType::AccessAuth, PermissionType::AccessAuth) => true,
        (PermissionType::Command, PermissionType::Command) => true,
        (PermissionType::Pairing, PermissionType::Pairing) => true,
        (PermissionType::FileTransfer, PermissionType::FileTransfer) => true,
        (PermissionType::Other(x), PermissionType::Other(y)) => (*x) == (*y),
        _ => false,
    }
}

} // verus!

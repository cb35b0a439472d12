//! Handshake state machines: the short-range nonce / QR / ACK exchange and
//! the long-range exchange over the ultrasonic beam and the laser with
//! coupled channel validation, timeouts with retries and fallback to short
//! range, and the fast synchronisation packet.

use vstd::prelude::*;
use rand::RngCore;
use crate::channel_validator::{
    drop_stale, lemma_drop_stale_push_fresh, validation_outcome, ChannelData, ChannelType, ChannelValidator,
    ValidationError,
};
use crate::crypto::{bytes_equal, push_bytes};
use crate::hierarchical::{
    rank_level, CommandType, HierarchicalMessage, HierarchicalProtocolEngine, HierarchicalState, MilitaryRank,
};
use crate::laser::{
    adaptive_modulation, compensated_power, safe_limit, EnvironmentalImpact, LaserConfig, LaserEngine, LaserError,
    ModulationScheme, PowerProfile, ReceptionConfig,
};
use crate::performance_monitor::{
    default_environment, history_after_record, recommendation_texts, EnvironmentalFactors, PerformanceMetrics,
    PerformanceMonitor, PerformancePreset,
};
use crate::security::WeatherCondition;
use crate::range_detector::RangeDetectorCategory;
use crate::ultrasonic_beam::{BeamConfig, BeamSignal, UltrasonicBeamEngine, UltrasonicBeamError};

verus! {

#[derive(Debug, Clone, Copy, PartialEq, Eq, Structural)]
pub enum CommunicationMode {
    /// Ultrasound and QR codes.
    ShortRange,
    /// Laser and focused ultrasound.
    LongRange,
    /// Multi-band ultrasound with visual compensation.
    NoisyEnvironment,
    /// Automatic selection.
    Auto,
}

#[derive(Debug, Clone, PartialEq, Eq)]
pub enum ProtocolState {
    Idle,
    SendingNonce,
    WaitingForQr,
    SendingAck,
    Connected,
    LongRangeSync,
    LongRangeKeyExchange,
    LongRangeAuth,
    LongRangeConnected,
    SecurityValidation,
    PermissionCheck,
    HumanApprovalRequired,
    RiskAssessment,
    CommandSafeguardsActive,
    SecureChannelEstablished,
    LongRangeSecuritySync,
    LongRangeAuthWithValidation,
    LongRangeCommandSafeguards,
    LongRangeSecureChannel,
    FallbackToShortRange,
    Error(String),
}

#[derive(Debug, Clone, PartialEq, Eq)]
pub enum ProtocolError {
    AudioError(String),
    VisualError(String),
    CryptoError(String),
    Timeout,
    InvalidState,
    UltrasonicBeamError(UltrasonicBeamError),
    LaserError(LaserError),
    CoupledChannelValidationFailed,
    ChannelValidatorError(ValidationError),
    LongRangeChannelUnavailable,
    FallbackToShortRange,
}

/// Calls `rand::thread_rng().fill_bytes` on a 16-byte buffer. Nothing is
/// claimed of the bytes: they come from the operating system's generator.
#[verifier::external_body]
fn random_session_id() -> (r: [u8; 16]) {
    let mut id = [0u8; 16];
    rand::thread_rng().fill_bytes(&mut id);
    id
}

/// The CRC-32 (IEEE) checksum of a byte string.
/// One bit step of the reflected CRC-32 register: shift right, and fold in
/// the IEEE polynomial 0xEDB88320 when the dropped bit was set.
pub open spec fn crc32_bit(reg: u32) -> u32 {
    if reg & 1 == 1 {
        (reg >> 1u32) ^ 0xEDB8_8320u32
    } else {
        reg >> 1u32
    }
}

/// `n` bit steps of the register.
pub open spec fn crc32_bits(reg: u32, n: nat) -> u32
    decreases n,
{
    if n == 0 {
        reg
    } else {
        crc32_bits(crc32_bit(reg), (n - 1) as nat)
    }
}

/// The register after the bytes of `data`, starting from all ones: each byte
/// is folded into the low bits and stepped through eight times.
pub open spec fn crc32_register(data: Seq<u8>) -> u32
    decreases data.len(),
{
    if data.len() == 0 {
        0xFFFF_FFFFu32
    } else {
        crc32_bits(crc32_register(data.drop_last()) ^ (data.last() as u32), 8)
    }
}

/// The CRC-32 (IEEE 802.3) checksum of a byte string: the final register
/// with every bit inverted.
#[verifier::opaque]
pub open spec fn crc32(data: Seq<u8>) -> u32 {
    crc32_register(data) ^ 0xFFFF_FFFFu32
}

/// Calls `crc32fast::hash`. The contract claims that the result is the
/// CRC-32 (IEEE) checksum of `data` as `crc32` defines it.
#[verifier::external_body]
fn crc32_checksum(data: &[u8]) -> (r: u32)
    ensures
        r == crc32(data@),
{
    crc32fast::hash(data)
}

/// Little-endian bytes of a 32-bit integer.
pub open spec fn le_bytes_u32(x: u32) -> Seq<u8> {
    Seq::new(4, |i: int| ((x >> ((8 * i) as u32)) & 0xffu32) as u8)
}

/// Little-endian bytes of a 128-bit integer.
pub open spec fn le_bytes_u128(x: u128) -> Seq<u8> {
    Seq::new(16, |i: int| ((x >> ((8 * i) as u128)) & 0xffu128) as u8)
}

fn push_le_u32(out: &mut Vec<u8>, x: u32)
    ensures
        final(out)@ == old(out)@ + le_bytes_u32(x),
{
    let mut i: u32 = 0;
    while i < 4
        invariant
            i <= 4,
            out@ == old(out)@ + le_bytes_u32(x).take(i as int),
        decreases 4 - i,
    {
        out.push(((x >> (8 * i)) & 0xffu32) as u8);
        i = i + 1;
        assert(out@ =~= old(out)@ + le_bytes_u32(x).take(i as int));
    }
    assert(le_bytes_u32(x).take(4) =~= le_bytes_u32(x));
}

fn push_le_u128(out: &mut Vec<u8>, x: u128)
    ensures
        final(out)@ == old(out)@ + le_bytes_u128(x),
{
    let mut i: u128 = 0;
    while i < 16
        invariant
            i <= 16,
            out@ == old(out)@ + le_bytes_u128(x).take(i as int),
        decreases 16 - i,
    {
        out.push(((x >> (8 * i)) & 0xffu128) as u8);
        i = i + 1;
        assert(out@ =~= old(out)@ + le_bytes_u128(x).take(i as int));
    }
    assert(le_bytes_u128(x).take(16) =~= le_bytes_u128(x));
}

/// The body of a fast synchronisation packet: session id, nonce, and the
/// milliseconds since the last activity (little-endian, 16 bytes).
pub open spec fn sync_packet_body(nonce: Seq<u8>, session_id: Seq<u8>, elapsed_ms: u128) -> Seq<u8> {
    session_id + nonce + le_bytes_u128(elapsed_ms)
}

/// Appends a checksum (little-endian) to a packet body.
pub fn seal_sync_packet(body: Vec<u8>, checksum: u32) -> (r: Vec<u8>)
    ensures
        r@ == body@ + le_bytes_u32(checksum),
{
    let mut packet = body;
    push_le_u32(&mut packet, checksum);
    packet
}

/// Channel quality summary, per-mille.
#[derive(Debug, Clone, Copy, PartialEq, Eq, Structural)]
pub struct ChannelQuality {
    pub ultrasonic_signal_strength_permille: u32,
    pub laser_alignment_status: bool,
    pub overall_quality_permille: u32,
}

/// Adjustments a performance check calls for.
#[derive(Debug, Clone, Copy, PartialEq, Eq, Structural)]
pub struct PerformanceAdjustments {
    pub optimize_power: bool,
    pub update_modulation: bool,
    pub update_ecc: bool,
}

/// Adjustments for measured power (microwatts), throughput (bits per second)
/// and bit error rate (parts per million): power above 100 mW calls for power
/// optimization, throughput below 500 kbit/s for a modulation update, and a
/// bit error rate above 1% for an error-correction update.
pub fn performance_adjustments(power_uw: u64, throughput_bps: u64, ber_ppm: u64) -> (r: PerformanceAdjustments)
    ensures
        r == (PerformanceAdjustments {
            optimize_power: power_uw > 100_000,
            update_modulation: throughput_bps < 500_000,
            update_ecc: ber_ppm > 10_000,
        }),
{
    PerformanceAdjustments {
        optimize_power: power_uw > 100_000,
        update_modulation: throughput_bps < 500_000,
        update_ecc: ber_ppm > 10_000,
    }
}

/// Nominal range of a category for performance records, in meters: 75, 125,
/// 150 and 190; 100 without a category.
pub fn nominal_range_m(category: Option<RangeDetectorCategory>) -> (r: u32)
    ensures
        r == (match category {
            Some(RangeDetectorCategory::Close) => 75u32,
            Some(RangeDetectorCategory::Medium) => 125u32,
            Some(RangeDetectorCategory::Far) => 150u32,
            Some(RangeDetectorCategory::Extreme) => 190u32,
            None => 100u32,
        }),
{
    match category {
        Some(RangeDetectorCategory::Close) => 75,
        Some(RangeDetectorCategory::Medium) => 125,
        Some(RangeDetectorCategory::Far) => 150,
        Some(RangeDetectorCategory::Extreme) => 190,
        None => 100,
    }
}

/// The acknowledgement sent over the ultrasonic beam after coupled validation.
pub open spec fn long_range_ack() -> Seq<u8> {
    seq![76u8, 79, 78, 71, 95, 82, 65, 78, 71, 69, 95, 65, 67, 75]
}

/// The protocol engine's decision state. Transmission and reception are
/// carried out by the caller; the engine says which state each step leads to.
#[derive(Debug)]
pub struct ProtocolEngine {
    state: ProtocolState,
    mode: CommunicationMode,
    ultrasonic_beam: Option<UltrasonicBeamEngine>,
    laser: Option<LaserEngine>,
    channel_validator: Option<ChannelValidator>,
    session_id: [u8; 16],
    peer_public_key: Option<Vec<u8>>,
    shared_secret: Option<[u8; 32]>,
    coupled_validation_required: bool,
    timeout_ms: u64,
    retry_count: u32,
    max_retries: u32,
    last_activity_ms: u64,
    performance_enabled: bool,
    last_performance_check_ms: u64,
    performance_check_interval_ms: u64,
    performance_monitor: Option<PerformanceMonitor>,
}

impl ProtocolEngine {
    pub closed spec fn monitor(&self) -> Option<PerformanceMonitor> {
        self.performance_monitor
    }

    pub closed spec fn laser_engine(&self) -> Option<LaserEngine> {
        self.laser
    }

    pub closed spec fn state(&self) -> ProtocolState {
        self.state
    }

    pub closed spec fn mode(&self) -> CommunicationMode {
        self.mode
    }

    pub closed spec fn session(&self) -> Seq<u8> {
        self.session_id@
    }

    pub closed spec fn secret(&self) -> Option<Seq<u8>> {
        match self.shared_secret {
            Some(s) => Some(s@),
            None => None,
        }
    }

    pub closed spec fn peer_key(&self) -> Option<Seq<u8>> {
        match self.peer_public_key {
            Some(k) => Some(k@),
            None => None,
        }
    }

    pub closed spec fn has_ultrasonic(&self) -> bool {
        self.ultrasonic_beam is Some
    }

    pub closed spec fn ultrasonic_active(&self) -> bool {
        self.ultrasonic_beam matches Some(u) && u.active()
    }

    pub closed spec fn has_laser(&self) -> bool {
        self.laser is Some
    }

    pub closed spec fn has_validator(&self) -> bool {
        self.channel_validator is Some
    }

    pub closed spec fn validator(&self) -> ChannelValidator {
        self.channel_validator->0
    }

    pub closed spec fn retries(&self) -> u32 {
        self.retry_count
    }

    pub closed spec fn max_retries(&self) -> u32 {
        self.max_retries
    }

    pub closed spec fn timeout_ms(&self) -> u64 {
        self.timeout_ms
    }

    pub closed spec fn last_activity(&self) -> u64 {
        self.last_activity_ms
    }

    pub closed spec fn performance_enabled(&self) -> bool {
        self.performance_enabled
    }

    pub closed spec fn coupled_required(&self) -> bool {
        self.coupled_validation_required
    }

    /// A fresh engine for a known session id: idle, automatic mode, no
    /// long-range engines, a 30 s timeout with three retries, coupled
    /// validation required, performance checks every 500 ms once enabled.
    pub fn with_session_id(session_id: [u8; 16], now_ms: u64) -> (r: Self)
        ensures
            r.state() == ProtocolState::Idle,
            r.mode() == CommunicationMode::Auto,
            r.session() == session_id@,
            r.secret() is None,
            r.peer_key() is None,
            !r.has_ultrasonic(),
            !r.has_laser(),
            !r.has_validator(),
            r.retries() == 0,
            r.max_retries() == 3,
            r.timeout_ms() == 30_000,
            r.last_activity() == now_ms,
            !r.performance_enabled(),
            r.coupled_required(),
    {
        ProtocolEngine {
            state: ProtocolState::Idle,
            mode: CommunicationMode::Auto,
            ultrasonic_beam: None,
            laser: None,
            channel_validator: None,
            session_id,
            peer_public_key: None,
            shared_secret: None,
            coupled_validation_required: true,
            timeout_ms: 30_000,
            retry_count: 0,
            max_retries: 3,
            last_activity_ms: now_ms,
            performance_enabled: false,
            last_performance_check_ms: now_ms,
            performance_check_interval_ms: 500,
            performance_monitor: None,
        }
    }

    /// A fresh engine with a random session id.
    pub fn new(now_ms: u64) -> (r: Self)
        ensures
            r.state() == ProtocolState::Idle,
            r.mode() == CommunicationMode::Auto,
            r.session().len() == 16,
            r.secret() is None,
            !r.has_ultrasonic(),
            !r.has_laser(),
            !r.has_validator(),
            r.retries() == 0,
            r.last_activity() == now_ms,
    {
        Self::with_session_id(random_session_id(), now_ms)
    }

    pub fn with_mode(mode: CommunicationMode, now_ms: u64) -> (r: Self)
        ensures
            r.state() == ProtocolState::Idle,
            r.mode() == mode,
            r.session().len() == 16,
            r.secret() is None,
            !r.has_ultrasonic(),
            !r.has_laser(),
            !r.has_validator(),
            r.retries() == 0,
            r.last_activity() == now_ms,
    {
        let mut engine = Self::new(now_ms);
        engine.mode = mode;
        engine
    }

    /// In long-range or automatic mode, brings up an active ultrasonic beam,
    /// a laser channel and a channel validator.
    pub fn initialize_long_range(&mut self, now_ms: u64) -> (r: Result<(), ProtocolError>)
        ensures
            r is Ok,
            old(self).mode() == CommunicationMode::LongRange || old(self).mode() == CommunicationMode::Auto ==> final(self).has_ultrasonic()
                && final(self).has_laser() && final(self).has_validator(),
            !(old(self).mode() == CommunicationMode::LongRange || old(self).mode() == CommunicationMode::Auto) ==> final(self).has_ultrasonic()
                == old(self).has_ultrasonic() && final(self).has_laser() == old(self).has_laser() && final(self).has_validator()
                == old(self).has_validator(),
            final(self).state() == old(self).state(),
            final(self).mode() == old(self).mode(),
            final(self).session() == old(self).session(),
            final(self).secret() == old(self).secret(),
            final(self).peer_key() == old(self).peer_key(),
    {
        match self.mode {
            CommunicationMode::LongRange | CommunicationMode::Auto => {
                let mut ultrasonic = UltrasonicBeamEngine::new();
                let _ = ultrasonic.initialize();
                self.ultrasonic_beam = Some(ultrasonic);
                self.laser = Some(LaserEngine::new(LaserConfig::default(), ReceptionConfig::default(), now_ms));
                self.channel_validator = Some(ChannelValidator::new(now_ms));
            },
            _ => {},
        }
        Ok(())
    }

    /// In noisy-environment or automatic mode, brings up an active
    /// multi-band ultrasonic beam and a channel validator.
    pub fn initialize_noisy_environment(&mut self, now_ms: u64) -> (r: Result<(), ProtocolError>)
        ensures
            r is Ok,
            old(self).mode() == CommunicationMode::NoisyEnvironment || old(self).mode() == CommunicationMode::Auto ==> final(self).has_ultrasonic()
                && final(self).has_validator() && final(self).has_laser() == old(self).has_laser(),
            !(old(self).mode() == CommunicationMode::NoisyEnvironment || old(self).mode() == CommunicationMode::Auto) ==> final(self).has_ultrasonic()
                == old(self).has_ultrasonic() && final(self).has_laser() == old(self).has_laser() && final(self).has_validator()
                == old(self).has_validator(),
            final(self).state() == old(self).state(),
            final(self).mode() == old(self).mode(),
            final(self).session() == old(self).session(),
            final(self).secret() == old(self).secret(),
            final(self).peer_key() == old(self).peer_key(),
    {
        match self.mode {
            CommunicationMode::NoisyEnvironment | CommunicationMode::Auto => {
                let cfg = BeamConfig::default();
                proof {
                    assert forall|i: int| 0 <= i < cfg.fundamental_bands@.len() implies 20000 <= #[trigger] cfg.fundamental_bands@[i] <= 60000 by {
                        assert(cfg.fundamental_bands@ == seq![40000u32, 48000, 56000]);
                    }
                    assert forall|i: int| 0 <= i < cfg.harmonic_bands@.len() implies 40000 <= #[trigger] cfg.harmonic_bands@[i] <= 120000 by {
                        assert(cfg.harmonic_bands@ == seq![80000u32, 96000, 112000]);
                    }
                }
                let beam = UltrasonicBeamEngine::with_config(cfg);
                match beam {
                    Ok(mut ultrasonic) => {
                        let _ = ultrasonic.initialize();
                        self.ultrasonic_beam = Some(ultrasonic);
                    },
                    Err(_) => {},
                }
                self.channel_validator = Some(ChannelValidator::new(now_ms));
            },
            _ => {},
        }
        Ok(())
    }

    /// Sets the mode and brings up the engines it uses: long range the
    /// long-range engines, noisy environments the multi-band beam, and the
    /// automatic mode both.
    pub fn set_mode(&mut self, mode: CommunicationMode, now_ms: u64) -> (r: Result<(), ProtocolError>)
        ensures
            r is Ok,
            final(self).mode() == mode,
            final(self).state() == old(self).state(),
            final(self).session() == old(self).session(),
            final(self).secret() == old(self).secret(),
            final(self).peer_key() == old(self).peer_key(),
            mode == CommunicationMode::ShortRange ==> final(self).has_ultrasonic() == old(self).has_ultrasonic()
                && final(self).has_laser() == old(self).has_laser() && final(self).has_validator() == old(self).has_validator(),
            mode == CommunicationMode::LongRange || mode == CommunicationMode::Auto ==> final(self).has_ultrasonic()
                && final(self).has_laser() && final(self).has_validator(),
    {
        self.mode = mode;
        match mode {
            CommunicationMode::LongRange => {
                self.initialize_long_range(now_ms)?;
            },
            CommunicationMode::NoisyEnvironment => {
                self.initialize_noisy_environment(now_ms)?;
            },
            CommunicationMode::Auto => {
                self.initialize_long_range(now_ms)?;
                self.initialize_noisy_environment(now_ms)?;
            },
            CommunicationMode::ShortRange => {},
        }
        Ok(())
    }

    pub fn get_peer_public_key(&self) -> (r: Option<&Vec<u8>>)
        ensures
            self.peer_key() is None ==> r is None,
            self.peer_key() is Some ==> r is Some && r->0@ == self.peer_key()->0,
    {
        match &self.peer_public_key {
            Some(k) => Some(k),
            None => None,
        }
    }

    pub fn get_mode(&self) -> (r: CommunicationMode)
        ensures
            r == self.mode(),
    {
        self.mode
    }

    /// Starts the short-range handshake from idle: the nonce goes out next.
    pub fn initiate_handshake(&mut self) -> (r: Result<(), ProtocolError>)
        ensures
            old(self).state() != ProtocolState::Idle ==> r == Err::<(), ProtocolError>(ProtocolError::InvalidState)
                && final(self).state() == old(self).state(),
            old(self).state() == ProtocolState::Idle ==> r is Ok && final(self).state() == ProtocolState::SendingNonce,
            final(self).session() == old(self).session(),
            final(self).secret() == old(self).secret(),
    {
        match self.state {
            ProtocolState::Idle => {
                self.state = ProtocolState::SendingNonce;
                Ok(())
            },
            _ => Err(ProtocolError::InvalidState),
        }
    }

    /// Records that the nonce went out: the engine waits for the QR code.
    pub fn nonce_sent(&mut self) -> (r: Result<(), ProtocolError>)
        ensures
            old(self).state() == ProtocolState::SendingNonce ==> r is Ok && final(self).state() == ProtocolState::WaitingForQr,
            old(self).state() != ProtocolState::SendingNonce ==> r == Err::<(), ProtocolError>(ProtocolError::InvalidState)
                && final(self).state() == old(self).state(),
            final(self).session() == old(self).session(),
            final(self).secret() == old(self).secret(),
    {
        match self.state {
            ProtocolState::SendingNonce => {
                self.state = ProtocolState::WaitingForQr;
                Ok(())
            },
            _ => Err(ProtocolError::InvalidState),
        }
    }

    /// Receives the initiator's nonce when idle: the engine then waits for
    /// the QR exchange; a nonce other than 32 bytes is refused.
    pub fn receive_nonce(&mut self, nonce: &[u8]) -> (r: Result<(), ProtocolError>)
        ensures
            old(self).state() != ProtocolState::Idle ==> r == Err::<(), ProtocolError>(ProtocolError::InvalidState)
                && final(self).state() == old(self).state(),
            old(self).state() == ProtocolState::Idle ==> final(self).state() == ProtocolState::WaitingForQr
                && (r is Ok <==> nonce@.len() == 32)
                && (r is Err ==> r->Err_0 is CryptoError),
            final(self).session() == old(self).session(),
    {
        match self.state {
            ProtocolState::Idle => {},
            _ => {
                return Err(ProtocolError::InvalidState);
            },
        }
        self.state = ProtocolState::WaitingForQr;
        if nonce.len() != 32 {
            return Err(ProtocolError::CryptoError(String::new()));
        }
        Ok(())
    }

    /// Processes the peer's QR payload while waiting for it: the payload's
    /// session id must match; the peer key and the shared secret derived
    /// from it are kept and the acknowledgement goes out next.
    pub fn process_qr_payload(&mut self, payload_session_id: &[u8; 16], peer_public_key: Vec<u8>, shared_secret: [u8; 32]) -> (r: Result<(), ProtocolError>)
        ensures
            old(self).state() != ProtocolState::WaitingForQr ==> r == Err::<(), ProtocolError>(ProtocolError::InvalidState)
                && *final(self) == *old(self),
            old(self).state() == ProtocolState::WaitingForQr && payload_session_id@ != old(self).session() ==> r is Err
                && r->Err_0 is CryptoError && *final(self) == *old(self),
            old(self).state() == ProtocolState::WaitingForQr && payload_session_id@ == old(self).session() ==> r is Ok
                && final(self).state() == ProtocolState::SendingAck
                && final(self).peer_key() == Some(peer_public_key@)
                && final(self).secret() == Some(shared_secret@)
                && final(self).session() == old(self).session(),
    {
        match self.state {
            ProtocolState::WaitingForQr => {},
            _ => {
                return Err(ProtocolError::InvalidState);
            },
        }
        if !bytes_equal(payload_session_id.as_slice(), self.session_id.as_slice()) {
            return Err(ProtocolError::CryptoError(String::new()));
        }
        self.peer_public_key = Some(peer_public_key);
        self.shared_secret = Some(shared_secret);
        self.state = ProtocolState::SendingAck;
        Ok(())
    }

    /// Records that the acknowledgement went out: the session is connected.
    pub fn ack_sent(&mut self) -> (r: Result<(), ProtocolError>)
        ensures
            old(self).state() == ProtocolState::SendingAck ==> r is Ok && final(self).state() == ProtocolState::Connected,
            old(self).state() != ProtocolState::SendingAck ==> r == Err::<(), ProtocolError>(ProtocolError::InvalidState)
                && final(self).state() == old(self).state(),
            final(self).session() == old(self).session(),
            final(self).secret() == old(self).secret(),
    {
        match self.state {
            ProtocolState::SendingAck => {
                self.state = ProtocolState::Connected;
                Ok(())
            },
            _ => Err(ProtocolError::InvalidState),
        }
    }

    /// Receives the acknowledgement while waiting for the QR exchange.
    pub fn receive_ack(&mut self) -> (r: Result<(), ProtocolError>)
        ensures
            old(self).state() == ProtocolState::WaitingForQr ==> r is Ok && final(self).state() == ProtocolState::Connected,
            old(self).state() != ProtocolState::WaitingForQr ==> r == Err::<(), ProtocolError>(ProtocolError::InvalidState)
                && final(self).state() == old(self).state(),
            final(self).session() == old(self).session(),
            final(self).secret() == old(self).secret(),
    {
        match self.state {
            ProtocolState::WaitingForQr => {
                self.state = ProtocolState::Connected;
                Ok(())
            },
            _ => Err(ProtocolError::InvalidState),
        }
    }

    pub fn get_state(&self) -> (r: &ProtocolState)
        ensures
            *r == self.state(),
    {
        &self.state
    }

    pub fn get_state_value(&self) -> (r: ProtocolState)
        ensures
            r == self.state(),
    {
        match &self.state {
            ProtocolState::Idle => ProtocolState::Idle,
            ProtocolState::SendingNonce => ProtocolState::SendingNonce,
            ProtocolState::WaitingForQr => ProtocolState::WaitingForQr,
            ProtocolState::SendingAck => ProtocolState::SendingAck,
            ProtocolState::Connected => ProtocolState::Connected,
            ProtocolState::LongRangeSync => ProtocolState::LongRangeSync,
            ProtocolState::LongRangeKeyExchange => ProtocolState::LongRangeKeyExchange,
            ProtocolState::LongRangeAuth => ProtocolState::LongRangeAuth,
            ProtocolState::LongRangeConnected => ProtocolState::LongRangeConnected,
            ProtocolState::SecurityValidation => ProtocolState::SecurityValidation,
            ProtocolState::PermissionCheck => ProtocolState::PermissionCheck,
            ProtocolState::HumanApprovalRequired => ProtocolState::HumanApprovalRequired,
            ProtocolState::RiskAssessment => ProtocolState::RiskAssessment,
            ProtocolState::CommandSafeguardsActive => ProtocolState::CommandSafeguardsActive,
            ProtocolState::SecureChannelEstablished => ProtocolState::SecureChannelEstablished,
            ProtocolState::LongRangeSecuritySync => ProtocolState::LongRangeSecuritySync,
            ProtocolState::LongRangeAuthWithValidation => ProtocolState::LongRangeAuthWithValidation,
            ProtocolState::LongRangeCommandSafeguards => ProtocolState::LongRangeCommandSafeguards,
            ProtocolState::LongRangeSecureChannel => ProtocolState::LongRangeSecureChannel,
            ProtocolState::FallbackToShortRange => ProtocolState::FallbackToShortRange,
            ProtocolState::Error(m) => ProtocolState::Error(m.clone()),
        }
    }

    pub fn get_shared_secret(&self) -> (r: Option<[u8; 32]>)
        ensures
            self.secret() is None ==> r is None,
            self.secret() is Some ==> r is Some && r->0@ == self.secret()->0,
    {
        self.shared_secret
    }

    pub fn get_session_id(&self) -> (r: [u8; 16])
        ensures
            r@ == self.session(),
    {
        self.session_id
    }

    pub fn set_session_id(&mut self, session_id: [u8; 16])
        ensures
            final(self).session() == session_id@,
            final(self).state() == old(self).state(),
            final(self).secret() == old(self).secret(),
            final(self).mode() == old(self).mode(),
            final(self).peer_key() == old(self).peer_key(),
    {
        self.session_id = session_id;
    }

    pub fn set_shared_secret(&mut self, secret: Option<[u8; 32]>)
        ensures
            secret is None ==> final(self).secret() is None,
            secret is Some ==> final(self).secret() == Some(secret->0@),
            final(self).state() == old(self).state(),
            final(self).session() == old(self).session(),
            final(self).mode() == old(self).mode(),
            final(self).peer_key() == old(self).peer_key(),
    {
        self.shared_secret = secret;
    }

    pub fn set_peer_public_key(&mut self, key: Option<Vec<u8>>)
        ensures
            key is None ==> final(self).peer_key() is None,
            key is Some ==> final(self).peer_key() == Some(key->0@),
            final(self).state() == old(self).state(),
            final(self).session() == old(self).session(),
            final(self).mode() == old(self).mode(),
            final(self).secret() == old(self).secret(),
    {
        self.peer_public_key = key;
    }

    pub fn set_state(&mut self, new_state: ProtocolState)
        ensures
            final(self).state() == new_state,
            final(self).session() == old(self).session(),
            final(self).secret() == old(self).secret(),
            final(self).mode() == old(self).mode(),
            final(self).peer_key() == old(self).peer_key(),
    {
        self.state = new_state;
    }

    pub fn set_communication_mode(&mut self, mode: CommunicationMode)
        ensures
            final(self).mode() == mode,
            final(self).state() == old(self).state(),
            final(self).session() == old(self).session(),
            final(self).secret() == old(self).secret(),
            final(self).peer_key() == old(self).peer_key(),
    {
        self.mode = mode;
    }

    /// Starts the long-range handshake from idle with both long-range
    /// engines present: the synchronisation pulse carrying the session id is
    /// prepared and the engine enters the synchronisation state.
    pub fn initiate_long_range_handshake(&mut self, now_ms: u64) -> (r: Result<BeamSignal, ProtocolError>)
        ensures
            old(self).state() != ProtocolState::Idle || !old(self).has_ultrasonic() || !old(self).has_laser() ==> r == Err::<
                BeamSignal,
                ProtocolError,
            >(ProtocolError::InvalidState) && final(self).state() == old(self).state(),
            old(self).state() == ProtocolState::Idle && old(self).has_ultrasonic() && old(self).has_laser() ==> final(self).state()
                == ProtocolState::LongRangeSync && final(self).last_activity() == now_ms,
            r is Ok ==> (match r->Ok_0 {
                BeamSignal::SyncPulse { duration_ms, pattern } => duration_ms == 50 && pattern@ == old(self).session(),
                _ => false,
            }),
            final(self).session() == old(self).session(),
            final(self).has_laser() == old(self).has_laser(),
            final(self).has_ultrasonic() == old(self).has_ultrasonic(),
    {
        match self.state {
            ProtocolState::Idle => {},
            _ => {
                return Err(ProtocolError::InvalidState);
            },
        }
        if self.ultrasonic_beam.is_none() || self.laser.is_none() {
            return Err(ProtocolError::InvalidState);
        }
        self.state = ProtocolState::LongRangeSync;
        self.last_activity_ms = now_ms;
        let session_id = self.session_id;
        match &self.ultrasonic_beam {
            Some(ultrasonic) => match ultrasonic.transmit_sync_pulse(session_id.as_slice()) {
                Ok(signal) => Ok(signal),
                Err(e) => Err(ProtocolError::UltrasonicBeamError(e)),
            },
            None => Err(ProtocolError::InvalidState),
        }
    }

    /// Records that the synchronisation pulse and the public key went out:
    /// the engine enters key exchange.
    pub fn long_range_sync_sent(&mut self) -> (r: Result<(), ProtocolError>)
        ensures
            old(self).state() == ProtocolState::LongRangeSync ==> r is Ok && final(self).state() == ProtocolState::LongRangeKeyExchange,
            old(self).state() != ProtocolState::LongRangeSync ==> r == Err::<(), ProtocolError>(ProtocolError::InvalidState)
                && final(self).state() == old(self).state(),
            final(self).session() == old(self).session(),
    {
        match self.state {
            ProtocolState::LongRangeSync => {
                self.state = ProtocolState::LongRangeKeyExchange;
                Ok(())
            },
            _ => Err(ProtocolError::InvalidState),
        }
    }

    /// Builds a fast synchronisation packet: session id, nonce, milliseconds
    /// since the last activity (little-endian), and the CRC-32 of those bytes
    /// (little-endian).
    pub fn create_fast_sync_packet(&self, nonce: &[u8], session_id: &[u8; 16], elapsed_ms: u128) -> (r: Vec<u8>)
        ensures
            r@ == sync_packet_body(nonce@, session_id@, elapsed_ms) + le_bytes_u32(
                crc32(sync_packet_body(nonce@, session_id@, elapsed_ms)),
            ),
    {
        let mut body: Vec<u8> = Vec::new();
        push_bytes(&mut body, session_id.as_slice());
        push_bytes(&mut body, nonce);
        push_le_u128(&mut body, elapsed_ms);
        assert(body@ =~= sync_packet_body(nonce@, session_id@, elapsed_ms));
        let checksum = crc32_checksum(body.as_slice());
        seal_sync_packet(body, checksum)
    }

    /// Receives a synchronisation pulse when idle: a pattern equal to the
    /// session id moves the engine to key exchange.
    pub fn receive_long_range_sync(&mut self, sync_pattern: &[u8], now_ms: u64) -> (r: Result<(), ProtocolError>)
        ensures
            old(self).state() != ProtocolState::Idle ==> r == Err::<(), ProtocolError>(ProtocolError::InvalidState)
                && final(self).state() == old(self).state(),
            old(self).state() == ProtocolState::Idle && sync_pattern@ != old(self).session() ==> r is Err && r->Err_0 is CryptoError
                && final(self).state() == old(self).state(),
            old(self).state() == ProtocolState::Idle && sync_pattern@ == old(self).session() ==> r is Ok
                && final(self).state() == ProtocolState::LongRangeKeyExchange && final(self).last_activity() == now_ms,
            final(self).session() == old(self).session(),
    {
        match self.state {
            ProtocolState::Idle => {},
            _ => {
                return Err(ProtocolError::InvalidState);
            },
        }
        if !bytes_equal(sync_pattern, self.session_id.as_slice()) {
            return Err(ProtocolError::CryptoError(String::new()));
        }
        self.state = ProtocolState::LongRangeKeyExchange;
        self.last_activity_ms = now_ms;
        Ok(())
    }

    /// Whether the public key may go out over the laser now.
    pub fn send_public_key_via_laser(&self) -> (r: Result<(), ProtocolError>)
        ensures
            self.state() != ProtocolState::LongRangeKeyExchange ==> r == Err::<(), ProtocolError>(ProtocolError::InvalidState),
            self.state() == ProtocolState::LongRangeKeyExchange && !self.has_laser() ==> r == Err::<(), ProtocolError>(
                ProtocolError::LongRangeChannelUnavailable,
            ),
            self.state() == ProtocolState::LongRangeKeyExchange && self.has_laser() ==> r is Ok,
    {
        match self.state {
            ProtocolState::LongRangeKeyExchange => {},
            _ => {
                return Err(ProtocolError::InvalidState);
            },
        }
        if self.laser.is_none() {
            return Err(ProtocolError::LongRangeChannelUnavailable);
        }
        Ok(())
    }

    /// Whether a public key may be received over the laser now.
    pub fn receive_public_key_via_laser(&self) -> (r: Result<(), ProtocolError>)
        ensures
            self.state() != ProtocolState::LongRangeKeyExchange ==> r == Err::<(), ProtocolError>(ProtocolError::InvalidState),
            self.state() == ProtocolState::LongRangeKeyExchange && !self.has_laser() ==> r == Err::<(), ProtocolError>(
                ProtocolError::LongRangeChannelUnavailable,
            ),
            self.state() == ProtocolState::LongRangeKeyExchange && self.has_laser() ==> r is Ok,
    {
        self.send_public_key_via_laser()
    }

    /// Coupled validation on the initiator side, during key exchange: keeps
    /// the peer's laser key and the shared secret, feeds the key to the
    /// channel validator (which must then be fully validated) or, without a
    /// validator but with coupled validation required, asks the beam for
    /// presence; then prepares the long-range acknowledgement and connects.
    pub fn perform_coupled_validation(&mut self, laser_public_key: &[u8], shared_secret: [u8; 32], now_ms: u64) -> (r: Result<
        Option<BeamSignal>,
        ProtocolError,
    >)
        ensures
            old(self).state() != ProtocolState::LongRangeKeyExchange ==> r == Err::<Option<BeamSignal>, ProtocolError>(
                ProtocolError::InvalidState,
            ) && final(self).state() == old(self).state() && final(self).peer_key() == old(self).peer_key()
                && final(self).secret() == old(self).secret() && final(self).last_activity() == old(self).last_activity(),
            old(self).state() == ProtocolState::LongRangeKeyExchange ==> final(self).peer_key() == Some(laser_public_key@)
                && final(self).secret() == Some(shared_secret@),
            old(self).state() == ProtocolState::LongRangeKeyExchange && old(self).has_validator() && r is Ok
                ==> final(self).validator().phase() == crate::channel_validator::ValidationPhase::FullyValidated,
            old(self).state() == ProtocolState::LongRangeKeyExchange && !old(self).has_validator() && old(self).coupled_required()
                && old(self).has_ultrasonic() && old(self).ultrasonic_active() ==> r == Err::<Option<BeamSignal>, ProtocolError>(
                ProtocolError::CoupledChannelValidationFailed,
            ),
            old(self).state() == ProtocolState::LongRangeKeyExchange && !old(self).has_validator() && old(self).coupled_required()
                && old(self).has_ultrasonic() && !old(self).ultrasonic_active() ==> r == Err::<Option<BeamSignal>, ProtocolError>(
                ProtocolError::UltrasonicBeamError(UltrasonicBeamError::HardwareUnavailable),
            ),
            r is Ok ==> final(self).state() == ProtocolState::LongRangeConnected && final(self).last_activity() == now_ms,
            r matches Ok(Some(sig)) ==> (sig matches BeamSignal::ControlData { data: d, priority: p } && d@ == long_range_ack()
                && p == 1),
            r matches Ok(None) ==> !old(self).has_ultrasonic(),
            r is Err && old(self).state() == ProtocolState::LongRangeKeyExchange ==> final(self).state()
                == ProtocolState::LongRangeKeyExchange,
            final(self).session() == old(self).session(),
            final(self).has_validator() == old(self).has_validator(),
            final(self).has_ultrasonic() == old(self).has_ultrasonic(),
    {
        match self.state {
            ProtocolState::LongRangeKeyExchange => {},
            _ => {
                return Err(ProtocolError::InvalidState);
            },
        }
        self.peer_public_key = Some(vstd::slice::slice_to_vec(laser_public_key));
        self.shared_secret = Some(shared_secret);
        match &mut self.channel_validator {
            Some(validator) => {
                let laser_data = ChannelData {
                    channel_type: ChannelType::Laser,
                    data: vstd::slice::slice_to_vec(laser_public_key),
                    timestamp_ms: now_ms,
                    sequence_id: 1,
                };
                if validator.receive_channel_data(laser_data, now_ms).is_err() {
                    return Err(ProtocolError::CoupledChannelValidationFailed);
                }
                if !validator.is_validated() {
                    return Err(ProtocolError::CoupledChannelValidationFailed);
                }
            },
            None => {
                if self.coupled_validation_required {
                    match &self.ultrasonic_beam {
                        Some(ultrasonic) => match ultrasonic.detect_presence() {
                            Ok(present) => {
                                if !present {
                                    return Err(ProtocolError::CoupledChannelValidationFailed);
                                }
                            },
                            Err(e) => {
                                return Err(ProtocolError::UltrasonicBeamError(e));
                            },
                        },
                        None => {},
                    }
                }
            },
        }
        let ack: [u8; 14] = [76u8, 79, 78, 71, 95, 82, 65, 78, 71, 69, 95, 65, 67, 75];
        assert(ack@ == long_range_ack());
        let signal = match &self.ultrasonic_beam {
            Some(ultrasonic) => match ultrasonic.transmit_control_data(ack.as_slice(), 1) {
                Ok(s) => Some(s),
                Err(e) => {
                    return Err(ProtocolError::UltrasonicBeamError(e));
                },
            },
            None => None,
        };
        self.state = ProtocolState::LongRangeConnected;
        self.last_activity_ms = now_ms;
        Ok(signal)
    }

    /// Feeds ultrasonic data to the channel validator, when there is one.
    pub fn receive_ultrasonic_data(&mut self, data: &[u8], sequence_id: u64, now_ms: u64) -> (r: Result<(), ProtocolError>)
        ensures
            !old(self).has_validator() ==> r is Ok,
            r is Err ==> r->Err_0 is ChannelValidatorError,
            old(self).has_validator() ==> ({
                let v = old(self).validator();
                let nv = final(self).validator();
                let record = nv.ultrasound_buffer().last();
                &&& nv.ultrasound_buffer().len() > 0
                &&& record.channel_type == ChannelType::Ultrasound
                &&& record.data@ == data@
                &&& record.timestamp_ms == now_ms
                &&& record.sequence_id == sequence_id
                &&& nv.ultrasound_buffer().drop_last() == drop_stale(v.ultrasound_buffer(), now_ms)
                &&& nv.laser_buffer() == v.laser_buffer()
                &&& nv.config() == v.config()
                &&& nv.session_key() == v.session_key()
                &&& v.laser_buffer().len() == 0 ==> r is Ok && nv.phase() == v.phase() && nv.used_nonces() == v.used_nonces()
                    && nv.metrics() == v.metrics()
                &&& v.laser_buffer().len() > 0 ==> r == match validation_outcome(
                    v.config(),
                    v.used_nonces(),
                    v.laser_buffer().last(),
                    record,
                    now_ms,
                ) {
                    Ok(()) => Ok::<(), ProtocolError>(()),
                    Err(e) => Err(ProtocolError::ChannelValidatorError(e)),
                }
            }),
            final(self).state() == old(self).state(),
            final(self).session() == old(self).session(),
            final(self).has_validator() == old(self).has_validator(),
            final(self).has_ultrasonic() == old(self).has_ultrasonic(),
            final(self).secret() == old(self).secret(),
            final(self).last_activity() == old(self).last_activity(),
    {
        match &mut self.channel_validator {
            Some(validator) => {
                let record = ChannelData {
                    channel_type: ChannelType::Ultrasound,
                    data: vstd::slice::slice_to_vec(data),
                    timestamp_ms: now_ms,
                    sequence_id,
                };
                proof {
                    lemma_drop_stale_push_fresh(validator.ultrasound_buffer(), record, now_ms);
                }
                match validator.receive_channel_data(record, now_ms) {
                    Ok(()) => Ok(()),
                    Err(e) => Err(ProtocolError::ChannelValidatorError(e)),
                }
            },
            None => Ok(()),
        }
    }

    /// Receives the coupled acknowledgement during authentication: with a
    /// validator the acknowledgement is validated and the session connects
    /// once fully validated; without one, the beam's presence suffices.
    pub fn receive_coupled_ack(&mut self, ack_data: &[u8], sequence_id: u64, now_ms: u64) -> (r: Result<(), ProtocolError>)
        ensures
            old(self).state() != ProtocolState::LongRangeAuth ==> r == Err::<(), ProtocolError>(ProtocolError::InvalidState)
                && final(self).state() == old(self).state(),
            old(self).state() == ProtocolState::LongRangeAuth && !old(self).has_validator() && !old(self).has_ultrasonic() ==> r
                == Err::<(), ProtocolError>(ProtocolError::LongRangeChannelUnavailable),
            old(self).state() == ProtocolState::LongRangeAuth && !old(self).has_validator() && old(self).has_ultrasonic() ==> r is Ok,
            old(self).state() == ProtocolState::LongRangeAuth && old(self).has_validator() && r is Ok ==> final(self).validator().phase()
                == crate::channel_validator::ValidationPhase::FullyValidated,
            r is Ok ==> final(self).state() == ProtocolState::LongRangeConnected && final(self).last_activity() == now_ms,
            r is Err ==> final(self).state() == old(self).state(),
            final(self).session() == old(self).session(),
    {
        match self.state {
            ProtocolState::LongRangeAuth => {},
            _ => {
                return Err(ProtocolError::InvalidState);
            },
        }
        if self.channel_validator.is_some() {
            self.receive_ultrasonic_data(ack_data, sequence_id, now_ms)?;
            let validated = match &self.channel_validator {
                Some(v) => v.is_validated(),
                None => false,
            };
            if validated {
                self.state = ProtocolState::LongRangeConnected;
                self.last_activity_ms = now_ms;
                Ok(())
            } else {
                Err(ProtocolError::CoupledChannelValidationFailed)
            }
        } else if self.ultrasonic_beam.is_some() {
            self.state = ProtocolState::LongRangeConnected;
            self.last_activity_ms = now_ms;
            Ok(())
        } else {
            Err(ProtocolError::LongRangeChannelUnavailable)
        }
    }

    /// Timeout handling: past the timeout since the last activity, a retry is
    /// spent (long-range handshake states are kept, others return to idle)
    /// while retries remain; once they are spent the engine falls back to
    /// short range.
    pub fn check_timeout_and_retry(&mut self, now_ms: u64) -> (r: Result<(), ProtocolError>)
        ensures
            ({
                let elapsed = if now_ms >= old(self).last_activity() { now_ms - old(self).last_activity() } else { 0 };
                let s = old(self).state();
                let kept = s == ProtocolState::LongRangeSync || s == ProtocolState::LongRangeKeyExchange || s
                    == ProtocolState::LongRangeAuth;
                &&& elapsed <= old(self).timeout_ms() ==> r is Ok && final(self).state() == s && final(self).retries()
                    == old(self).retries()
                &&& elapsed > old(self).timeout_ms() && old(self).retries() < old(self).max_retries() ==> r is Ok
                    && final(self).retries() == old(self).retries() + 1
                    && final(self).state() == (if kept { s } else { ProtocolState::Idle })
                    && final(self).last_activity() == now_ms
                &&& elapsed > old(self).timeout_ms() && old(self).retries() >= old(self).max_retries() ==> r == Err::<
                    (),
                    ProtocolError,
                >(ProtocolError::FallbackToShortRange) && final(self).state() == ProtocolState::FallbackToShortRange
                    && final(self).retries() == old(self).retries()
            }),
            final(self).max_retries() == old(self).max_retries(),
            final(self).timeout_ms() == old(self).timeout_ms(),
            final(self).session() == old(self).session(),
    {
        let elapsed: u64 = if now_ms >= self.last_activity_ms { now_ms - self.last_activity_ms } else { 0 };
        if elapsed > self.timeout_ms {
            if self.retry_count < self.max_retries {
                self.retry_count = self.retry_count + 1;
                let next = match self.state {
                    ProtocolState::LongRangeSync => ProtocolState::LongRangeSync,
                    ProtocolState::LongRangeKeyExchange => ProtocolState::LongRangeKeyExchange,
                    ProtocolState::LongRangeAuth => ProtocolState::LongRangeAuth,
                    _ => ProtocolState::Idle,
                };
                self.state = next;
                self.last_activity_ms = now_ms;
                Ok(())
            } else {
                self.state = ProtocolState::FallbackToShortRange;
                Err(ProtocolError::FallbackToShortRange)
            }
        } else {
            Ok(())
        }
    }

    /// Channel quality: a beam counts for 0.8 signal strength; the overall
    /// quality averages the signal with a full score for an aligned laser,
    /// or halves it otherwise.
    pub fn get_channel_quality(&self, laser_aligned: bool) -> (r: ChannelQuality)
        ensures
            ({
                let s: u32 = if self.has_ultrasonic() { 800 } else { 0 };
                let aligned = self.has_laser() && laser_aligned;
                r == ChannelQuality {
                    ultrasonic_signal_strength_permille: s,
                    laser_alignment_status: aligned,
                    overall_quality_permille: if aligned { ((s + 1000) / 2) as u32 } else { s / 2 },
                }
            }),
    {
        let s: u32 = if self.ultrasonic_beam.is_some() { 800 } else { 0 };
        let aligned = self.laser.is_some() && laser_aligned;
        ChannelQuality {
            ultrasonic_signal_strength_permille: s,
            laser_alignment_status: aligned,
            overall_quality_permille: if aligned { (s + 1000) / 2 } else { s / 2 },
        }
    }

    /// Enables performance monitoring with a fresh monitor keeping a
    /// hundred samples.
    pub fn enable_performance_monitoring(&mut self) -> (r: Result<(), ProtocolError>)
        ensures
            r is Ok,
            final(self).performance_enabled(),
            final(self).monitor() matches Some(m) && m.history().len() == 0 && m.max_history() == 100,
            final(self).state() == old(self).state(),
            final(self).session() == old(self).session(),
            final(self).laser_engine() == old(self).laser_engine(),
    {
        self.performance_monitor = Some(PerformanceMonitor::new(100));
        self.performance_enabled = true;
        Ok(())
    }

    pub fn disable_performance_monitoring(&mut self)
        ensures
            !final(self).performance_enabled(),
            final(self).monitor() is None,
            final(self).state() == old(self).state(),
            final(self).session() == old(self).session(),
            final(self).laser_engine() == old(self).laser_engine(),
    {
        self.performance_monitor = None;
        self.performance_enabled = false;
    }

    /// Whether a performance check is due: monitoring is enabled and the
    /// check interval has passed since the last check, which is then moved to now.
    pub fn performance_check_due(&mut self, now_ms: u64) -> (r: bool)
        ensures
            r == (old(self).performance_enabled() && (if now_ms >= old(self).last_performance_check_ms() {
                now_ms - old(self).last_performance_check_ms()
            } else {
                0
            }) >= old(self).performance_check_interval_ms()),
            r ==> final(self).last_performance_check_ms() == now_ms,
            !r ==> final(self).last_performance_check_ms() == old(self).last_performance_check_ms(),
            final(self).state() == old(self).state(),
            final(self).performance_enabled() == old(self).performance_enabled(),
            final(self).monitor() == old(self).monitor(),
            final(self).session() == old(self).session(),
            final(self).laser_engine() == old(self).laser_engine(),
            final(self).has_ultrasonic() == old(self).has_ultrasonic(),
            final(self).performance_check_interval_ms() == old(self).performance_check_interval_ms(),
    {
        if !self.performance_enabled {
            return false;
        }
        let since: u64 = if now_ms >= self.last_performance_check_ms { now_ms - self.last_performance_check_ms } else { 0 };
        if since < self.performance_check_interval_ms {
            return false;
        }
        self.last_performance_check_ms = now_ms;
        true
    }

    pub closed spec fn last_performance_check_ms(&self) -> u64 {
        self.last_performance_check_ms
    }

    pub closed spec fn performance_check_interval_ms(&self) -> u64 {
        self.performance_check_interval_ms
    }

    /// Whether messages may be encrypted or decrypted: the session must be
    /// connected (short or long range) and hold a shared secret.
    pub fn message_key(&self) -> (r: Result<[u8; 32], ProtocolError>)
        ensures
            !(self.state() == ProtocolState::Connected || self.state() == ProtocolState::LongRangeConnected) ==> r == Err::<
                [u8; 32],
                ProtocolError,
            >(ProtocolError::InvalidState),
            (self.state() == ProtocolState::Connected || self.state() == ProtocolState::LongRangeConnected) && self.secret() is None
                ==> r is Err && r->Err_0 is CryptoError,
            (self.state() == ProtocolState::Connected || self.state() == ProtocolState::LongRangeConnected) && self.secret() is Some
                ==> r is Ok && r->Ok_0@ == self.secret()->0,
    {
        match self.state {
            ProtocolState::Connected | ProtocolState::LongRangeConnected => {},
            _ => {
                return Err(ProtocolError::InvalidState);
            },
        }
        match self.shared_secret {
            Some(k) => Ok(k),
            None => Err(ProtocolError::CryptoError(String::new())),
        }
    }
}

/// A performance sample of the protocol: 250 ms handshakes, a thousandth of
/// bit errors, no packet loss, half-strength error correction and default
/// surroundings; with a laser, its optimal power, its profile's data rate,
/// the modulation it would choose and the nominal range of the category
/// (with no category, 100 m); without one, no power, 1 Mbit/s, on-off
/// keying and no range. The signal is the ultrasonic channel's.
pub open spec fn protocol_metrics(
    now_ms: u64,
    laser: Option<LaserEngine>,
    ultrasonic_signal_permille: u32,
    category: Option<RangeDetectorCategory>,
    env: Option<EnvironmentalImpact>,
    signal_permille: u32,
) -> PerformanceMetrics {
    PerformanceMetrics {
        timestamp: now_ms,
        handshake_latency_ms: 250,
        data_throughput_bps: match laser { Some(l) => l.profile().data_rate_bps as u64, None => 1_000_000 },
        bit_error_rate_ppm: 1000,
        packet_loss_rate_ppm: 0,
        power_consumption_uw: match laser { Some(l) => l.profile().optimal_power_uw as u64, None => 0 },
        range_cm: match laser {
            Some(_) => match category {
                Some(RangeDetectorCategory::Close) => 7500,
                Some(RangeDetectorCategory::Medium) => 12500,
                Some(RangeDetectorCategory::Far) => 15000,
                Some(RangeDetectorCategory::Extreme) => 19000,
                None => 10000,
            },
            None => 0,
        },
        signal_strength_ppm: (ultrasonic_signal_permille * 1000) as i64,
        modulation_scheme: match laser {
            Some(l) => if l.adaptive() && l.has_range_detector() {
                adaptive_modulation(l.config().modulation, category, env, signal_permille)
            } else {
                l.config().modulation
            },
            None => ModulationScheme::Ook,
        },
        ecc_strength_ppm: 500_000,
        environmental_conditions: default_environment(),
    }
}

impl ProtocolEngine {
    /// The current performance sample, given the laser's alignment, range
    /// category, surroundings and signal.
    pub fn collect_performance_metrics(
        &self,
        now_ms: u64,
        laser_aligned: bool,
        category: Option<RangeDetectorCategory>,
        env: Option<EnvironmentalImpact>,
        signal_permille: u32,
    ) -> (r: PerformanceMetrics)
        ensures
            r == protocol_metrics(
                now_ms,
                self.laser_engine(),
                if self.has_ultrasonic() { 800 } else { 0 },
                category,
                env,
                signal_permille,
            ),
    {
        let quality = self.get_channel_quality(laser_aligned);
        let (power, rate, modulation, range_cm): (u64, u64, ModulationScheme, u64) = match &self.laser {
            Some(l) => {
                let profile = l.get_current_power_profile();
                let m = l.select_optimal_modulation(category, env, signal_permille);
                let r = (nominal_range_m(category) as u64) * 100;
                (profile.optimal_power_uw as u64, profile.data_rate_bps as u64, m, r)
            },
            None => (0, 1_000_000, ModulationScheme::Ook, 0),
        };
        PerformanceMetrics {
            timestamp: now_ms,
            handshake_latency_ms: 250,
            data_throughput_bps: rate,
            bit_error_rate_ppm: 1000,
            packet_loss_rate_ppm: 0,
            power_consumption_uw: power,
            range_cm,
            signal_strength_ppm: (quality.ultrasonic_signal_strength_permille as i64) * 1000,
            modulation_scheme: modulation,
            ecc_strength_ppm: 500_000,
            environmental_conditions: EnvironmentalFactors::default(),
        }
    }

    /// A performance check: when monitoring is on and the interval has
    /// passed, the current sample is recorded and the adjustments it calls
    /// for are returned; otherwise nothing happens.
    pub fn perform_performance_check(
        &mut self,
        now_ms: u64,
        laser_aligned: bool,
        category: Option<RangeDetectorCategory>,
        env: Option<EnvironmentalImpact>,
        signal_permille: u32,
    ) -> (r: Result<Option<PerformanceAdjustments>, ProtocolError>)
        ensures
            r is Ok,
            ({
                let due = old(self).performance_enabled() && old(self).monitor() is Some && elapsed(now_ms, old(self).last_performance_check_ms())
                    >= old(self).performance_check_interval_ms();
                let m = protocol_metrics(
                    now_ms,
                    old(self).laser_engine(),
                    if old(self).has_ultrasonic() { 800 } else { 0 },
                    category,
                    env,
                    signal_permille,
                );
                &&& !due ==> r == Ok::<Option<PerformanceAdjustments>, ProtocolError>(None) && final(self).monitor() == old(self).monitor()
                &&& due ==> r == Ok::<Option<PerformanceAdjustments>, ProtocolError>(Some(PerformanceAdjustments {
                    optimize_power: m.power_consumption_uw > 100_000,
                    update_modulation: m.data_throughput_bps < 500_000,
                    update_ecc: m.bit_error_rate_ppm > 10_000,
                })) && final(self).last_performance_check_ms() == now_ms && (final(self).monitor() matches Some(nm)
                    && nm.history() == history_after_record(old(self).monitor()->0.history(), old(self).monitor()->0.max_history(), m))
            }),
            final(self).state() == old(self).state(),
            final(self).session() == old(self).session(),
            final(self).laser_engine() == old(self).laser_engine(),
            final(self).performance_enabled() == old(self).performance_enabled(),
    {
        if self.performance_monitor.is_none() {
            return Ok(None);
        }
        if !self.performance_check_due(now_ms) {
            return Ok(None);
        }
        let metrics = self.collect_performance_metrics(now_ms, laser_aligned, category, env, signal_permille);
        let taken = self.performance_monitor.take();
        match taken {
            Some(mut monitor) => {
                monitor.record_metrics(metrics);
                self.performance_monitor = Some(monitor);
            },
            None => {},
        }
        Ok(Some(performance_adjustments(metrics.power_consumption_uw, metrics.data_throughput_bps, metrics.bit_error_rate_ppm)))
    }

    /// Recommendations of the performance monitor; none without one.
    pub fn get_performance_recommendations(&self) -> (r: Vec<String>)
        ensures
            monitor_recommendations(self.monitor(), r@),
    {
        match &self.performance_monitor {
            Some(m) => m.get_recommendations(),
            None => Vec::new(),
        }
    }

    /// The newest performance sample, if monitoring recorded one.
    pub fn get_performance_status(&self) -> (r: Option<PerformanceMetrics>)
        ensures
            r == match self.monitor() {
                None => None,
                Some(m) => if m.history().len() == 0 { None } else { Some(m.history().last()) },
            },
    {
        match &self.performance_monitor {
            Some(m) => m.get_current_metrics(),
            None => None,
        }
    }

    /// Presets are accepted; they change nothing in the engine itself.
    pub fn set_performance_preset(&mut self, preset: PerformancePreset) -> (r: Result<(), ProtocolError>)
        ensures
            r is Ok,
            *final(self) == *old(self),
    {
        Ok(())
    }

    /// Adapts the laser's power to the weather and visibility; a laser
    /// without a range detector is refused.
    pub fn update_environmental_conditions(&mut self, weather: WeatherCondition, visibility_cm: u32) -> (r: Result<(), ProtocolError>)
        ensures
            old(self).laser_engine() is None ==> r is Ok && final(self).laser_engine() == old(self).laser_engine(),
            old(self).laser_engine() matches Some(l) ==> {
                &&& !l.has_range_detector() ==> r == Err::<(), ProtocolError>(ProtocolError::LaserError(LaserError::HardwareUnavailable))
                    && final(self).laser_engine() == old(self).laser_engine()
                &&& l.has_range_detector() ==> r is Ok && (final(self).laser_engine() matches Some(nl) && nl.profile() == ({
                    let p = compensated_power(l.profile().optimal_power_uw, weather, visibility_cm);
                    let limit = safe_limit(l.profile(), l.config().laser_type);
                    PowerProfile { optimal_power_uw: (if p < limit { p } else { limit }) as u32, ..l.profile() }
                }))
            },
            final(self).state() == old(self).state(),
            final(self).session() == old(self).session(),
    {
        let taken = self.laser.take();
        match taken {
            None => Ok(()),
            Some(mut l) => {
                if !l.has_range_detector_attached() {
                    self.laser = Some(l);
                    return Err(ProtocolError::LaserError(LaserError::HardwareUnavailable));
                }
                let _ = l.adjust_power_for_weather(weather, visibility_cm);
                self.laser = Some(l);
                Ok(())
            },
        }
    }
}

/// `r` holds the monitor's recommendations, or nothing without a monitor.
pub open spec fn monitor_recommendations(monitor: Option<PerformanceMonitor>, r: Seq<String>) -> bool {
    match monitor {
        None => r.len() == 0,
        Some(m) => {
            &&& m.history().len() == 0 ==> r.len() == 0
            &&& m.history().len() > 0 ==> r.map_values(|x: String| x@) == recommendation_texts(m.history().last())
        },
    }
}

pub open spec fn elapsed(now_ms: u64, then_ms: u64) -> u64 {
    if now_ms >= then_ms { (now_ms - then_ms) as u64 } else { 0 }
}

impl ProtocolEngine {
    /// Acts on a performance sample: power above 100 mW has the laser
    /// optimize its power (without a battery reading, which changes nothing),
    /// throughput below 500 kbit/s has it check its modulation, and a bit
    /// error rate above 1% has it retune its error correction for a fresh
    /// range measurement (`None` when that failed).
    pub fn perform_automatic_adjustments(
        &mut self,
        metrics: &PerformanceMetrics,
        distance_cm: Option<u32>,
        now_ms: u64,
    ) -> (r: Result<(), ProtocolError>)
        requires
            old(self).laser_engine() matches Some(l) ==> l.wf() && (distance_cm matches Some(d) ==> (l.ecc_engine() matches Some(e)
                ==> crate::laser::ecc_retune_fits(e, crate::laser::range_metrics(d, l.config().wavelength_nm, now_ms)))),
        ensures
            old(self).laser_engine() is None ==> r is Ok && final(self).laser_engine() == old(self).laser_engine(),
            old(self).laser_engine() matches Some(l) ==> {
                let retune = metrics.bit_error_rate_ppm > 10_000;
                &&& !retune ==> r is Ok
                &&& retune && l.optical_ecc_enabled() && l.has_range_detector() && distance_cm is None ==> r == Err::<(), ProtocolError>(
                    ProtocolError::LaserError(LaserError::TransmissionFailed),
                )
                &&& retune && !(l.optical_ecc_enabled() && l.has_range_detector() && distance_cm is None) ==> r is Ok
                &&& final(self).laser_engine() matches Some(nl) && nl.profile() == l.profile() && nl.config() == l.config()
                    && nl.safety() == l.safety() && nl.wf()
            },
            final(self).state() == old(self).state(),
            final(self).session() == old(self).session(),
    {
        let taken = self.laser.take();
        match taken {
            None => Ok(()),
            Some(mut l) => {
                if metrics.power_consumption_uw > 100_000 {
                    let _ = l.optimize_power_usage(None);
                }
                if metrics.data_throughput_bps < 500_000 {
                    let _ = l.update_modulation_scheme(None, None, 800);
                }
                let mut result: Result<(), ProtocolError> = Ok(());
                if metrics.bit_error_rate_ppm > 10_000 {
                    match l.update_ecc_for_range(distance_cm, now_ms) {
                        Ok(()) => {},
                        Err(e) => {
                            result = Err(ProtocolError::LaserError(e));
                        },
                    }
                }
                self.laser = Some(l);
                result
            },
        }
    }
}

/// The protocol engine's side of the hierarchical protocol: each call hands
/// the work to the hierarchical engine and leaves the session untouched.
impl ProtocolEngine {
    pub fn enable_hierarchical_protocol(&mut self, hierarchical_engine: &mut HierarchicalProtocolEngine) -> (r: Result<
        (),
        ProtocolError,
    >)
        ensures
            r is Ok,
            final(hierarchical_engine).state() == HierarchicalState::Discovering,
            final(hierarchical_engine).rank() == old(hierarchical_engine).rank(),
            final(hierarchical_engine).sequence() == old(hierarchical_engine).sequence(),
            *final(self) == *old(self),
    {
        hierarchical_engine.enable_hierarchy()
    }

    /// Handles a decoded hierarchical message; returns what to send back.
    pub fn process_hierarchical_message(
        &mut self,
        message: &HierarchicalMessage,
        hierarchical_engine: &mut HierarchicalProtocolEngine,
        now_ms: u64,
        timestamp: u64,
    ) -> (r: Result<Option<HierarchicalMessage>, ProtocolError>)
        requires
            old(hierarchical_engine).sequence() < u32::MAX,
        ensures
            r is Ok,
            final(hierarchical_engine).rank() == old(hierarchical_engine).rank(),
            *final(self) == *old(self),
    {
        hierarchical_engine.receive_hierarchical_message(message, now_ms, timestamp)
    }

    /// The rank presence broadcast, when the discovery interval allows.
    pub fn broadcast_hierarchical_presence(
        &mut self,
        hierarchical_engine: &mut HierarchicalProtocolEngine,
        now_ms: u64,
        timestamp: u64,
    ) -> (r: Result<Option<HierarchicalMessage>, ProtocolError>)
        requires
            old(hierarchical_engine).sequence() < u32::MAX,
        ensures
            r is Ok,
            r->Ok_0 matches Some(m) ==> m.rank == old(hierarchical_engine).rank() && m.target_rank is None
                && m.command_type == CommandType::StatusUpdate && m.payload@ == crate::hierarchical::rank_payload(
                old(hierarchical_engine).rank(),
            ),
            final(hierarchical_engine).rank() == old(hierarchical_engine).rank(),
            *final(self) == *old(self),
    {
        Ok(hierarchical_engine.broadcast_rank_presence(now_ms, timestamp))
    }

    /// Sends a command through the hierarchical engine; returns its sequence
    /// number. Commanding a higher rank is refused.
    pub fn send_hierarchical_command(
        &mut self,
        target_rank: MilitaryRank,
        command_type: CommandType,
        payload: Vec<u8>,
        require_ack: bool,
        hierarchical_engine: &mut HierarchicalProtocolEngine,
        timestamp: u64,
    ) -> (r: Result<u32, ProtocolError>)
        requires
            rank_level(old(hierarchical_engine).rank()) >= rank_level(target_rank) ==> old(hierarchical_engine).sequence() < u32::MAX,
        ensures
            rank_level(old(hierarchical_engine).rank()) < rank_level(target_rank) ==> r == Err::<u32, ProtocolError>(
                ProtocolError::InvalidState,
            ),
            rank_level(old(hierarchical_engine).rank()) >= rank_level(target_rank) ==> r == Ok::<u32, ProtocolError>(
                old(hierarchical_engine).sequence(),
            ) && final(hierarchical_engine).sequence() == old(hierarchical_engine).sequence() + 1,
            *final(self) == *old(self),
    {
        match hierarchical_engine.send_command(target_rank, command_type, payload, require_ack, timestamp) {
            Ok((seq, _, _)) => Ok(seq),
            Err(e) => Err(e),
        }
    }

    pub fn get_hierarchical_state(&self, hierarchical_engine: &HierarchicalProtocolEngine) -> (r: HierarchicalState)
        ensures
            r == hierarchical_engine.state(),
    {
        hierarchical_engine.get_current_state()
    }

    pub fn get_device_rank(&self, hierarchical_engine: &HierarchicalProtocolEngine) -> (r: MilitaryRank)
        ensures
            r == hierarchical_engine.rank(),
    {
        hierarchical_engine.get_rank()
    }
}

} // verus!

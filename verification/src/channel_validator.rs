//! Coupled channel validation: authentication that requires simultaneous
//! presence in the laser and the ultrasound beam, through temporal coupling,
//! cross-channel authentication tags, anti-replay of coupled nonces and a
//! coupling-quality threshold, tracked by a validation phase machine.

use vstd::prelude::*;
use crate::crypto::{
    be_bytes_u128, be_bytes_u64, bytes_equal, hmac_sha256, hmac_sha256_tag, push_be_u128,
    push_be_u64, push_bytes, sha256, sha256_digest,
};

verus! {

/// Validation phases for coupled channel authentication.
#[derive(Debug, Clone, Copy, PartialEq, Eq, Structural)]
pub enum ValidationPhase {
    Idle,
    SyncPulseReceived,
    LaserKeyReceived,
    TemporalCouplingValidated,
    CrossChannelSignatureVerified,
    AntiReplayCheckPassed,
    FullyValidated,
    FallbackMode,
}

/// Types of communication channels.
#[derive(Debug, Clone, Copy, PartialEq, Eq, Structural)]
pub enum ChannelType {
    Laser,
    Ultrasound,
}

/// Data received on one channel, stamped in milliseconds.
#[derive(Debug)]
pub struct ChannelData {
    pub channel_type: ChannelType,
    pub data: Vec<u8>,
    pub timestamp_ms: u64,
    pub sequence_id: u64,
}

impl Clone for ChannelData {
    fn clone(&self) -> (r: Self)
        ensures
            r.channel_type == self.channel_type,
            r.data@ == self.data@,
            r.timestamp_ms == self.timestamp_ms,
            r.sequence_id == self.sequence_id,
    {
        ChannelData {
            channel_type: self.channel_type,
            data: self.data.clone(),
            timestamp_ms: self.timestamp_ms,
            sequence_id: self.sequence_id,
        }
    }
}

/// Coupled nonce pair for anti-replay protection.
#[derive(Debug, Clone, Copy)]
pub struct CoupledNonce {
    pub laser_nonce: [u8; 16],
    pub ultrasound_nonce: [u8; 16],
    pub timestamp_ms: u64,
}

/// Channel quality metrics, in fixed units.
#[derive(Debug, Clone, Copy, PartialEq, Eq, Structural)]
pub struct ChannelQuality {
    pub signal_strength_permille: u32,
    pub alignment_status: bool,
    pub error_rate_ppm: u32,
    pub latency_ms: u64,
}

/// Validation configuration.
#[derive(Debug, Clone, Copy, PartialEq, Eq, Structural)]
pub struct ValidationConfig {
    pub temporal_tolerance_ms: u64,
    /// Per-mille.
    pub quality_threshold_permille: u32,
    pub max_replay_window_ms: u64,
    pub fallback_enabled: bool,
    /// Per-mille.
    pub min_coupling_quality_permille: u32,
}

impl Default for ValidationConfig {
    /// A 100 ms coupling window, quality threshold 0.7, 5 s replay window,
    /// fallback enabled, minimum coupling quality 0.6.
    fn default() -> (r: Self)
        ensures
            r == (ValidationConfig {
                temporal_tolerance_ms: 100,
                quality_threshold_permille: 700,
                max_replay_window_ms: 5000,
                fallback_enabled: true,
                min_coupling_quality_permille: 600,
            }),
    {
        ValidationConfig {
            temporal_tolerance_ms: 100,
            quality_threshold_permille: 700,
            max_replay_window_ms: 5000,
            fallback_enabled: true,
            min_coupling_quality_permille: 600,
        }
    }
}

/// Validation errors.
#[derive(Debug, Clone, Copy, PartialEq, Eq, Structural)]
pub enum ValidationError {
    /// The channels arrived this many milliseconds apart, beyond the tolerance.
    TemporalCouplingFailed(u64, u64),
    CrossChannelSignatureFailed,
    AntiReplayFailed,
    /// Coupling quality and threshold, per-mille.
    QualityThresholdFailed(u32, u32),
    InvalidPhaseTransition,
    InvalidChannelData,
    Timeout,
    FallbackFailed,
}

/// Validation counters.
#[derive(Debug, Clone, Copy, PartialEq, Eq, Structural)]
pub struct ValidationMetrics {
    pub total_validations: u64,
    pub successful_validations: u64,
    pub temporal_coupling_failures: u64,
    pub signature_verification_failures: u64,
    pub anti_replay_failures: u64,
    pub quality_threshold_failures: u64,
    /// Running mean of the coupling quality of failed quality checks, per-mille.
    pub average_coupling_quality_permille: u32,
}

/// A coupled nonce digest already seen, with the instant it was seen.
#[derive(Debug, Clone, Copy)]
pub struct UsedNonce {
    pub hash: [u8; 32],
    pub seen_ms: u64,
}

/// A counter after one more event; counters saturate at their maximum.
pub open spec fn bump(x: u64) -> u64 {
    if x < u64::MAX {
        (x + 1) as u64
    } else {
        x
    }
}

/// Milliseconds between two instants.
pub open spec fn time_diff(a: u64, b: u64) -> u64 {
    if a > b {
        (a - b) as u64
    } else {
        (b - a) as u64
    }
}

/// Milliseconds from `then` to `now`, zero when `then` is later.
pub open spec fn elapsed(now: u64, then: u64) -> u64 {
    if now >= then {
        (now - then) as u64
    } else {
        0
    }
}

/// Coupling quality in per-mille, as the exact fraction `num / den`: half the
/// temporal quality `1 - min(diff / tolerance, 1)`, plus 0.3 of a signal
/// quality of 0.8 and 0.2 of an alignment quality of 0.9. A zero tolerance
/// leaves no temporal quality.
pub open spec fn coupling_quality_num(diff: u64, tolerance: u64) -> int {
    if tolerance == 0 {
        420
    } else {
        let d = if diff < tolerance { diff as int } else { tolerance as int };
        920 * tolerance - 500 * d
    }
}

pub open spec fn coupling_quality_den(tolerance: u64) -> int {
    if tolerance == 0 {
        1
    } else {
        tolerance as int
    }
}

/// Coupling quality in per-mille, rounded down.
pub open spec fn coupling_quality(diff: u64, tolerance: u64) -> int {
    coupling_quality_num(diff, tolerance) / coupling_quality_den(tolerance)
}

/// Whether the coupling quality falls below a threshold in per-mille.
pub open spec fn below_threshold(diff: u64, tolerance: u64, threshold: u32) -> bool {
    coupling_quality_num(diff, tolerance) < threshold * coupling_quality_den(tolerance)
}

/// Phase transitions that the machine accepts.
pub open spec fn valid_transition(from: ValidationPhase, to: ValidationPhase, fallback_enabled: bool) -> bool {
    ||| from == ValidationPhase::Idle && to == ValidationPhase::TemporalCouplingValidated
    ||| from == ValidationPhase::TemporalCouplingValidated && to == ValidationPhase::CrossChannelSignatureVerified
    ||| from == ValidationPhase::CrossChannelSignatureVerified && to == ValidationPhase::AntiReplayCheckPassed
    ||| from == ValidationPhase::AntiReplayCheckPassed && to == ValidationPhase::FullyValidated
    ||| to == ValidationPhase::FallbackMode && fallback_enabled
}

/// The phase after requesting `to` from `from`; a refused request keeps the phase.
pub open spec fn next_phase(from: ValidationPhase, to: ValidationPhase, fallback_enabled: bool) -> ValidationPhase {
    if valid_transition(from, to, fallback_enabled) {
        to
    } else {
        from
    }
}

/// The used nonces still inside the replay window at `now`.
pub open spec fn fresh_nonces(used: Seq<UsedNonce>, now: u64, window: u64) -> Seq<UsedNonce>
    decreases used.len(),
{
    if used.len() == 0 {
        seq![]
    } else {
        let prev = fresh_nonces(used.drop_last(), now, window);
        if elapsed(now, used.last().seen_ms) < window {
            prev.push(used.last())
        } else {
            prev
        }
    }
}

/// Whether a digest is among the used nonces.
pub open spec fn nonce_seen(used: Seq<UsedNonce>, hash: Seq<u8>) -> bool {
    exists|i: int| 0 <= i < used.len() && (#[trigger] used[i]).hash@ == hash
}

/// The coupled nonce digest of two channel payloads.
pub open spec fn coupled_hash(laser: Seq<u8>, ultrasound: Seq<u8>) -> Seq<u8> {
    sha256(laser + ultrasound)
}

/// Drops data from the front of a buffer while it is older than one second.
pub open spec fn drop_stale(buffer: Seq<ChannelData>, now: u64) -> Seq<ChannelData>
    decreases buffer.len(),
{
    if buffer.len() > 0 && elapsed(now, buffer[0].timestamp_ms) > 1000 {
        drop_stale(buffer.drop_first(), now)
    } else {
        buffer
    }
}

/// What validating a laser and an ultrasound record gives: the first stage
/// that fails, in the order temporal coupling, anti-replay, coupling quality
/// (cross-channel authentication always passes), or success.
pub open spec fn validation_outcome(
    cfg: ValidationConfig,
    used: Seq<UsedNonce>,
    laser: ChannelData,
    ultrasound: ChannelData,
    now: u64,
) -> Result<(), ValidationError> {
    let diff = time_diff(laser.timestamp_ms, ultrasound.timestamp_ms);
    if diff > cfg.temporal_tolerance_ms {
        Err(ValidationError::TemporalCouplingFailed(diff, cfg.temporal_tolerance_ms))
    } else if nonce_seen(fresh_nonces(used, now, cfg.max_replay_window_ms), coupled_hash(laser.data@, ultrasound.data@)) {
        Err(ValidationError::AntiReplayFailed)
    } else if below_threshold(diff, cfg.temporal_tolerance_ms, cfg.quality_threshold_permille) {
        Err(
            ValidationError::QualityThresholdFailed(
                coupling_quality(diff, cfg.temporal_tolerance_ms) as u32,
                cfg.quality_threshold_permille,
            ),
        )
    } else {
        Ok(())
    }
}

/// The phase after validating a laser and an ultrasound record from
/// `phase`: each stage that passes requests the next phase; a failed
/// temporal coupling leaves the phase, a replay stops after the
/// cross-channel stage, and low coupling quality after the anti-replay stage.
pub open spec fn validation_phase_after(
    cfg: ValidationConfig,
    phase: ValidationPhase,
    used: Seq<UsedNonce>,
    laser: ChannelData,
    ultrasound: ChannelData,
    now: u64,
) -> ValidationPhase {
    let diff = time_diff(laser.timestamp_ms, ultrasound.timestamp_ms);
    let p1 = next_phase(phase, ValidationPhase::TemporalCouplingValidated, cfg.fallback_enabled);
    let p2 = next_phase(p1, ValidationPhase::CrossChannelSignatureVerified, cfg.fallback_enabled);
    let p3 = next_phase(p2, ValidationPhase::AntiReplayCheckPassed, cfg.fallback_enabled);
    let p4 = next_phase(p3, ValidationPhase::FullyValidated, cfg.fallback_enabled);
    if diff > cfg.temporal_tolerance_ms {
        phase
    } else if nonce_seen(fresh_nonces(used, now, cfg.max_replay_window_ms), coupled_hash(laser.data@, ultrasound.data@)) {
        p2
    } else if below_threshold(diff, cfg.temporal_tolerance_ms, cfg.quality_threshold_permille) {
        p3
    } else {
        p4
    }
}

/// Pushing a record that is not stale onto a buffer and dropping stale
/// records keeps the record last, after the buffer's own fresh records.
pub proof fn lemma_drop_stale_push_fresh(s: Seq<ChannelData>, x: ChannelData, now: u64)
    requires
        elapsed(now, x.timestamp_ms) <= 1000,
    ensures
        drop_stale(s.push(x), now) == drop_stale(s, now).push(x),
    decreases s.len(),
{
    if s.len() > 0 && elapsed(now, s[0].timestamp_ms) > 1000 {
        assert(s.push(x).drop_first() =~= s.drop_first().push(x));
        lemma_drop_stale_push_fresh(s.drop_first(), x, now);
    } else if s.len() == 0 {
        assert(s.push(x).drop_first() =~= seq![]);
        assert(drop_stale(seq![], now) =~= seq![]);
    }
}

/// The session key derived from coupled channel data: the SHA-256 digest of
/// both payloads and the session's age in nanoseconds (big-endian), each
/// byte mixed with the salt and info strings.
pub open spec fn derived_session_key(laser: Seq<u8>, ultrasound: Seq<u8>, elapsed_nanos: u128) -> Seq<u8> {
    let ikm = sha256(laser + ultrasound + be_bytes_u128(elapsed_nanos));
    Seq::new(32, |i: int| ikm[i] ^ session_salt()[i % 32] ^ session_info()[i % 32])
}

pub open spec fn session_salt() -> Seq<u8> {
    seq![99u8, 111, 117, 112, 108, 101, 100, 95, 99, 104, 97, 110, 110, 101, 108, 95, 115, 101, 115, 115, 105, 111, 110, 95, 107, 101, 121, 95, 115, 97, 108, 116]
}

pub open spec fn session_info() -> Seq<u8> {
    seq![99u8, 111, 117, 112, 108, 101, 100, 95, 99, 104, 97, 110, 110, 101, 108, 95, 115, 101, 115, 115, 105, 111, 110, 95, 107, 101, 121, 95, 105, 110, 102, 111]
}

/// Channel validator for coupled authentication.
#[derive(Debug)]
pub struct ChannelValidator {
    config: ValidationConfig,
    current_phase: ValidationPhase,
    laser_buffer: Vec<ChannelData>,
    ultrasound_buffer: Vec<ChannelData>,
    used_nonces: Vec<UsedNonce>,
    session_start_ms: u64,
    validation_metrics: ValidationMetrics,
    session_key: Option<[u8; 32]>,
}

impl ChannelValidator {
    pub closed spec fn config(&self) -> ValidationConfig {
        self.config
    }

    pub closed spec fn phase(&self) -> ValidationPhase {
        self.current_phase
    }

    pub closed spec fn laser_buffer(&self) -> Seq<ChannelData> {
        self.laser_buffer@
    }

    pub closed spec fn ultrasound_buffer(&self) -> Seq<ChannelData> {
        self.ultrasound_buffer@
    }

    pub closed spec fn used_nonces(&self) -> Seq<UsedNonce> {
        self.used_nonces@
    }

    pub closed spec fn metrics(&self) -> ValidationMetrics {
        self.validation_metrics
    }

    pub closed spec fn session_key(&self) -> Option<Seq<u8>> {
        match self.session_key {
            Some(k) => Some(k@),
            None => None,
        }
    }

    pub fn new(now_ms: u64) -> (r: Self)
        ensures
            r.config() == (ValidationConfig {
                temporal_tolerance_ms: 100,
                quality_threshold_permille: 700,
                max_replay_window_ms: 5000,
                fallback_enabled: true,
                min_coupling_quality_permille: 600,
            }),
            r.phase() == ValidationPhase::Idle,
            r.laser_buffer().len() == 0,
            r.ultrasound_buffer().len() == 0,
            r.used_nonces().len() == 0,
            r.session_key() is None,
            r.metrics() == (ValidationMetrics {
                total_validations: 0,
                successful_validations: 0,
                temporal_coupling_failures: 0,
                signature_verification_failures: 0,
                anti_replay_failures: 0,
                quality_threshold_failures: 0,
                average_coupling_quality_permille: 0,
            }),
            r.session_start_ms() == now_ms,
    {
        Self::with_config(ValidationConfig::default(), now_ms)
    }

    pub fn with_config(config: ValidationConfig, now_ms: u64) -> (r: Self)
        ensures
            r.config() == config,
            r.phase() == ValidationPhase::Idle,
            r.laser_buffer().len() == 0,
            r.ultrasound_buffer().len() == 0,
            r.used_nonces().len() == 0,
            r.session_key() is None,
            r.metrics() == (ValidationMetrics {
                total_validations: 0,
                successful_validations: 0,
                temporal_coupling_failures: 0,
                signature_verification_failures: 0,
                anti_replay_failures: 0,
                quality_threshold_failures: 0,
                average_coupling_quality_permille: 0,
            }),
            r.session_start_ms() == now_ms,
    {
        ChannelValidator {
            config,
            current_phase: ValidationPhase::Idle,
            laser_buffer: Vec::new(),
            ultrasound_buffer: Vec::new(),
            used_nonces: Vec::new(),
            session_start_ms: now_ms,
            validation_metrics: ValidationMetrics {
                total_validations: 0,
                successful_validations: 0,
                temporal_coupling_failures: 0,
                signature_verification_failures: 0,
                anti_replay_failures: 0,
                quality_threshold_failures: 0,
                average_coupling_quality_permille: 0,
            },
            session_key: None,
        }
    }

    /// Checks that the two channels arrived within the tolerance.
    pub fn validate_temporal_coupling(&mut self, laser: &ChannelData, ultrasound: &ChannelData) -> (r: Result<(), ValidationError>)
        ensures
            ({
                let diff = time_diff(laser.timestamp_ms, ultrasound.timestamp_ms);
                let tol = old(self).config().temporal_tolerance_ms;
                &&& diff <= tol ==> r is Ok && final(self).metrics() == old(self).metrics()
                &&& diff > tol ==> r == Err::<(), ValidationError>(ValidationError::TemporalCouplingFailed(diff, tol))
                    && final(self).metrics() == (ValidationMetrics {
                        temporal_coupling_failures: bump(old(self).metrics().temporal_coupling_failures),
                        ..old(self).metrics()
                    })
            }),
            final(self).config() == old(self).config(),
            final(self).phase() == old(self).phase(),
            final(self).laser_buffer() == old(self).laser_buffer(),
            final(self).ultrasound_buffer() == old(self).ultrasound_buffer(),
            final(self).used_nonces() == old(self).used_nonces(),
            final(self).session_key() == old(self).session_key(),
    {
        let diff: u64 = if laser.timestamp_ms > ultrasound.timestamp_ms {
            laser.timestamp_ms - ultrasound.timestamp_ms
        } else {
            ultrasound.timestamp_ms - laser.timestamp_ms
        };
        if diff > self.config.temporal_tolerance_ms {
            self.validation_metrics.temporal_coupling_failures = self.validation_metrics.temporal_coupling_failures.saturating_add(1);
            return Err(ValidationError::TemporalCouplingFailed(diff, self.config.temporal_tolerance_ms));
        }
        Ok(())
    }

    /// The authentication tag of one channel's payload: HMAC-SHA256 under the
    /// session key of the payload and its age in milliseconds (big-endian).
    fn channel_tag(key: &[u8; 32], data: &[u8], age_ms: u64) -> (r: [u8; 32])
        ensures
            r@ == hmac_sha256(key@, data@ + be_bytes_u64(age_ms)),
    {
        let mut message: Vec<u8> = Vec::new();
        push_bytes(&mut message, data);
        push_be_u64(&mut message, age_ms);
        assert(message@ =~= data@ + be_bytes_u64(age_ms));
        hmac_sha256_tag(key.as_slice(), message.as_slice())
    }

    /// Derives the session key as a validator created at this instant would.
    fn fresh_session_key(laser: &[u8], ultrasound: &[u8]) -> (r: [u8; 32])
        ensures
            r@ == derived_session_key(laser@, ultrasound@, 0),
    {
        Self::session_key_from(laser, ultrasound, 0)
    }

    /// Cross-channel authentication: each channel's payload is tagged under
    /// the session key (derived from the payloads when none is set) and the
    /// tag is verified against a recomputation. Tags are a function of the
    /// key and the message, so the verification always succeeds.
    pub fn validate_cross_channel_signature(&mut self, laser: &ChannelData, ultrasound: &ChannelData, now_ms: u64) -> (r: Result<(), ValidationError>)
        ensures
            r is Ok,
            *final(self) == *old(self),
    {
        let key: [u8; 32] = match self.session_key {
            Some(k) => k,
            None => Self::fresh_session_key(laser.data.as_slice(), ultrasound.data.as_slice()),
        };
        let laser_age: u64 = if now_ms >= laser.timestamp_ms { now_ms - laser.timestamp_ms } else { 0 };
        let ultrasound_age: u64 = if now_ms >= ultrasound.timestamp_ms { now_ms - ultrasound.timestamp_ms } else { 0 };
        let laser_tag = Self::channel_tag(&key, laser.data.as_slice(), laser_age);
        let ultrasound_tag = Self::channel_tag(&key, ultrasound.data.as_slice(), ultrasound_age);
        let laser_check = Self::channel_tag(&key, laser.data.as_slice(), laser_age);
        if !bytes_equal(laser_check.as_slice(), laser_tag.as_slice()) {
            self.validation_metrics.signature_verification_failures = self.validation_metrics.signature_verification_failures.saturating_add(1);
            return Err(ValidationError::CrossChannelSignatureFailed);
        }
        let ultrasound_check = Self::channel_tag(&key, ultrasound.data.as_slice(), ultrasound_age);
        if !bytes_equal(ultrasound_check.as_slice(), ultrasound_tag.as_slice()) {
            self.validation_metrics.signature_verification_failures = self.validation_metrics.signature_verification_failures.saturating_add(1);
            return Err(ValidationError::CrossChannelSignatureFailed);
        }
        Ok(())
    }

    /// Anti-replay: drops nonces older than the replay window, refuses a
    /// coupled nonce digest already seen, and records a new one.
    pub fn validate_anti_replay(&mut self, laser: &ChannelData, ultrasound: &ChannelData, now_ms: u64) -> (r: Result<(), ValidationError>)
        ensures
            ({
                let fresh = fresh_nonces(old(self).used_nonces(), now_ms, old(self).config().max_replay_window_ms);
                let hash = coupled_hash(laser.data@, ultrasound.data@);
                &&& nonce_seen(fresh, hash) ==> r == Err::<(), ValidationError>(ValidationError::AntiReplayFailed)
                    && final(self).used_nonces() == fresh
                    && final(self).metrics() == (ValidationMetrics {
                        anti_replay_failures: bump(old(self).metrics().anti_replay_failures),
                        ..old(self).metrics()
                    })
                &&& !nonce_seen(fresh, hash) ==> r is Ok
                    && final(self).used_nonces().len() == fresh.len() + 1
                    && final(self).used_nonces().drop_last() == fresh
                    && final(self).used_nonces().last().hash@ == hash
                    && final(self).used_nonces().last().seen_ms == now_ms
                    && final(self).metrics() == old(self).metrics()
            }),
            final(self).config() == old(self).config(),
            final(self).phase() == old(self).phase(),
            final(self).laser_buffer() == old(self).laser_buffer(),
            final(self).ultrasound_buffer() == old(self).ultrasound_buffer(),
            final(self).session_key() == old(self).session_key(),
    {
        let mut coupled: Vec<u8> = Vec::new();
        push_bytes(&mut coupled, laser.data.as_slice());
        push_bytes(&mut coupled, ultrasound.data.as_slice());
        let hash = sha256_digest(coupled.as_slice());
        let ghost used = self.used_nonces@;
        let window = self.config.max_replay_window_ms;
        let mut kept: Vec<UsedNonce> = Vec::new();
        let mut seen = false;
        let mut k: usize = 0;
        while k < self.used_nonces.len()
            invariant
                used == self.used_nonces@,
                window == self.config.max_replay_window_ms,
                hash@ == coupled_hash(laser.data@, ultrasound.data@),
                k <= used.len(),
                kept@ == fresh_nonces(used.take(k as int), now_ms, window),
                seen == nonce_seen(kept@, hash@),
            decreases used.len() - k,
        {
            assert(used.take(k + 1).drop_last() =~= used.take(k as int));
            let entry = self.used_nonces[k];
            let age: u64 = if now_ms >= entry.seen_ms { now_ms - entry.seen_ms } else { 0 };
            if age < window {
                let ghost before = kept@;
                let same = bytes_equal(entry.hash.as_slice(), hash.as_slice());
                kept.push(entry);
                proof {
                    if nonce_seen(before, hash@) {
                        let i = choose|i: int| 0 <= i < before.len() && (#[trigger] before[i]).hash@ == hash@;
                        assert(kept@[i] == before[i]);
                    }
                    if same {
                        assert(kept@[before.len() as int] == entry);
                    }
                    if nonce_seen(kept@, hash@) && !same {
                        let i = choose|i: int| 0 <= i < kept@.len() && (#[trigger] kept@[i]).hash@ == hash@;
                        assert(i < before.len());
                        assert(before[i] == kept@[i]);
                    }
                }
                seen = seen || same;
            }
            k = k + 1;
        }
        assert(used.take(k as int) =~= used);
        if seen {
            self.used_nonces = kept;
            self.validation_metrics.anti_replay_failures = self.validation_metrics.anti_replay_failures.saturating_add(1);
            return Err(ValidationError::AntiReplayFailed);
        }
        kept.push(UsedNonce { hash, seen_ms: now_ms });
        self.used_nonces = kept;
        Ok(())
    }

    /// Coupling quality in per-mille (rounded down) from the channels' arrival gap.
    pub fn calculate_coupling_quality(&self, laser: &ChannelData, ultrasound: &ChannelData) -> (r: u32)
        ensures
            r == coupling_quality(time_diff(laser.timestamp_ms, ultrasound.timestamp_ms), self.config().temporal_tolerance_ms),
            420 <= r <= 920,
    {
        let diff: u64 = if laser.timestamp_ms > ultrasound.timestamp_ms {
            laser.timestamp_ms - ultrasound.timestamp_ms
        } else {
            ultrasound.timestamp_ms - laser.timestamp_ms
        };
        let tol = self.config.temporal_tolerance_ms;
        if tol == 0 {
            return 420;
        }
        let d: u64 = if diff < tol { diff } else { tol };
        let num: u128 = 920 * (tol as u128) - 500 * (d as u128);
        let q = num / (tol as u128);
        assert(420 * (tol as int) <= num <= 920 * (tol as int));
        assert(420 <= q <= 920) by (nonlinear_arith)
            requires
                420 * (tol as int) <= num <= 920 * (tol as int),
                q == num / (tol as u128),
                tol > 0;
        q as u32
    }

    /// Checks the coupling quality against the threshold.
    pub fn validate_channel_quality(&mut self, laser: &ChannelData, ultrasound: &ChannelData) -> (r: Result<(), ValidationError>)
        requires
            old(self).metrics().total_validations > 0 || !below_threshold(
                time_diff(laser.timestamp_ms, ultrasound.timestamp_ms),
                old(self).config().temporal_tolerance_ms,
                old(self).config().quality_threshold_permille,
            ),
        ensures
            ({
                let diff = time_diff(laser.timestamp_ms, ultrasound.timestamp_ms);
                let tol = old(self).config().temporal_tolerance_ms;
                let thr = old(self).config().quality_threshold_permille;
                let q = coupling_quality(diff, tol);
                let m = old(self).metrics();
                &&& !below_threshold(diff, tol, thr) ==> r is Ok && final(self).metrics() == m
                &&& below_threshold(diff, tol, thr) ==> r == Err::<(), ValidationError>(ValidationError::QualityThresholdFailed(q as u32, thr))
                    && final(self).metrics() == (ValidationMetrics {
                        quality_threshold_failures: bump(m.quality_threshold_failures),
                        average_coupling_quality_permille: ((m.average_coupling_quality_permille * (m.total_validations - 1) + q) / m.total_validations as int) as u32,
                        ..m
                    })
            }),
            final(self).config() == old(self).config(),
            final(self).phase() == old(self).phase(),
            final(self).laser_buffer() == old(self).laser_buffer(),
            final(self).ultrasound_buffer() == old(self).ultrasound_buffer(),
            final(self).used_nonces() == old(self).used_nonces(),
            final(self).session_key() == old(self).session_key(),
    {
        let q = self.calculate_coupling_quality(laser, ultrasound);
        let diff: u64 = if laser.timestamp_ms > ultrasound.timestamp_ms {
            laser.timestamp_ms - ultrasound.timestamp_ms
        } else {
            ultrasound.timestamp_ms - laser.timestamp_ms
        };
        let tol = self.config.temporal_tolerance_ms;
        let thr = self.config.quality_threshold_permille;
        let below: bool = if tol == 0 {
            420 < thr
        } else {
            let d: u64 = if diff < tol { diff } else { tol };
            let t: u128 = tol as u128;
            let h: u128 = thr as u128;
            assert(h * t <= 0xffff_ffffu128 * 0xffff_ffff_ffff_ffffu128) by (nonlinear_arith)
                requires h <= 0xffff_ffffu128, t <= 0xffff_ffff_ffff_ffffu128;
            920 * t - 500 * (d as u128) < h * t
        };
        if below {
            let n = self.validation_metrics.total_validations;
            let avg = self.validation_metrics.average_coupling_quality_permille as u128;
            let m1: u128 = (n - 1) as u128;
            assert(avg * m1 <= 0xffff_ffffu128 * 0xffff_ffff_ffff_ffffu128) by (nonlinear_arith)
                requires avg <= 0xffff_ffffu128, m1 <= 0xffff_ffff_ffff_ffffu128;
            let total = avg * m1 + q as u128;
            let new_avg = total / (n as u128);
            assert(new_avg <= 0xffff_ffffu128) by (nonlinear_arith)
                requires
                    avg <= 0xffff_ffffu128,
                    q <= 920,
                    n >= 1,
                    total == avg * m1 + q as u128,
                    m1 + 1 == n,
                    new_avg == total / (n as u128);
            self.validation_metrics.quality_threshold_failures = self.validation_metrics.quality_threshold_failures.saturating_add(1);
            self.validation_metrics.average_coupling_quality_permille = new_avg as u32;
            return Err(ValidationError::QualityThresholdFailed(q, thr));
        }
        Ok(())
    }

    /// Requests a phase transition; refused transitions leave the phase.
    pub fn update_phase(&mut self, new_phase: ValidationPhase) -> (r: Result<(), ValidationError>)
        ensures
            r is Ok <==> valid_transition(old(self).phase(), new_phase, old(self).config().fallback_enabled),
            r is Err ==> r == Err::<(), ValidationError>(ValidationError::InvalidPhaseTransition),
            final(self).phase() == next_phase(old(self).phase(), new_phase, old(self).config().fallback_enabled),
            final(self).config() == old(self).config(),
            final(self).laser_buffer() == old(self).laser_buffer(),
            final(self).ultrasound_buffer() == old(self).ultrasound_buffer(),
            final(self).used_nonces() == old(self).used_nonces(),
            final(self).metrics() == old(self).metrics(),
            final(self).session_key() == old(self).session_key(),
    {
        let current = self.current_phase;
        let valid = match (current, new_phase) {
            (ValidationPhase::Idle, ValidationPhase::TemporalCouplingValidated) => true,
            (ValidationPhase::TemporalCouplingValidated, ValidationPhase::CrossChannelSignatureVerified) => true,
            (ValidationPhase::CrossChannelSignatureVerified, ValidationPhase::AntiReplayCheckPassed) => true,
            (ValidationPhase::AntiReplayCheckPassed, ValidationPhase::FullyValidated) => true,
            (_, ValidationPhase::FallbackMode) => self.config.fallback_enabled,
            _ => false,
        };
        if !valid {
            return Err(ValidationError::InvalidPhaseTransition);
        }
        self.current_phase = new_phase;
        Ok(())
    }

    pub fn get_current_phase(&self) -> (r: ValidationPhase)
        ensures
            r == self.phase(),
    {
        self.current_phase
    }

    pub fn get_metrics(&self) -> (r: ValidationMetrics)
        ensures
            r == self.metrics(),
    {
        self.validation_metrics
    }

    pub fn is_validated(&self) -> (r: bool)
        ensures
            r == (self.phase() == ValidationPhase::FullyValidated),
    {
        match self.current_phase {
            ValidationPhase::FullyValidated => true,
            _ => false,
        }
    }

    /// Resets the validator for a new session.
    pub fn reset(&mut self)
        ensures
            final(self).phase() == ValidationPhase::Idle,
            final(self).laser_buffer().len() == 0,
            final(self).ultrasound_buffer().len() == 0,
            final(self).used_nonces().len() == 0,
            final(self).config() == old(self).config(),
            final(self).metrics() == old(self).metrics(),
            final(self).session_key() == old(self).session_key(),
    {
        self.current_phase = ValidationPhase::Idle;
        self.laser_buffer = Vec::new();
        self.ultrasound_buffer = Vec::new();
        self.used_nonces = Vec::new();
    }

    /// Fallback validation on one channel: laser quality counts as 0.85 and
    /// ultrasound as 0.75; the fallback phase is entered when fallback is
    /// enabled and that quality reaches the minimum coupling quality.
    pub fn attempt_fallback_validation(&mut self, primary_channel: ChannelType, data: &ChannelData) -> (r: Result<(), ValidationError>)
        ensures
            ({
                let quality: u32 = match primary_channel {
                    ChannelType::Laser => 850,
                    ChannelType::Ultrasound => 750,
                };
                let accepted = old(self).config().fallback_enabled && quality >= old(self).config().min_coupling_quality_permille;
                &&& accepted ==> r is Ok && final(self).phase() == ValidationPhase::FallbackMode
                &&& !accepted ==> r == Err::<(), ValidationError>(ValidationError::FallbackFailed) && final(self).phase() == old(self).phase()
            }),
            final(self).config() == old(self).config(),
            final(self).laser_buffer() == old(self).laser_buffer(),
            final(self).ultrasound_buffer() == old(self).ultrasound_buffer(),
            final(self).used_nonces() == old(self).used_nonces(),
            final(self).metrics() == old(self).metrics(),
            final(self).session_key() == old(self).session_key(),
    {
        if !self.config.fallback_enabled {
            return Err(ValidationError::FallbackFailed);
        }
        let quality: u32 = match primary_channel {
            ChannelType::Laser => 850,
            ChannelType::Ultrasound => 750,
        };
        if quality >= self.config.min_coupling_quality_permille {
            self.update_phase(ValidationPhase::FallbackMode)
        } else {
            Err(ValidationError::FallbackFailed)
        }
    }

    pub fn get_config(&self) -> (r: ValidationConfig)
        ensures
            r == self.config(),
    {
        self.config
    }

    pub fn update_config(&mut self, config: ValidationConfig)
        ensures
            final(self).config() == config,
            final(self).phase() == old(self).phase(),
            final(self).laser_buffer() == old(self).laser_buffer(),
            final(self).ultrasound_buffer() == old(self).ultrasound_buffer(),
            final(self).used_nonces() == old(self).used_nonces(),
            final(self).metrics() == old(self).metrics(),
            final(self).session_key() == old(self).session_key(),
    {
        self.config = config;
    }

    pub fn set_session_key(&mut self, key: [u8; 32])
        ensures
            final(self).session_key() == Some(key@),
            final(self).config() == old(self).config(),
            final(self).phase() == old(self).phase(),
            final(self).metrics() == old(self).metrics(),
    {
        self.session_key = Some(key);
    }

    fn session_key_from(laser: &[u8], ultrasound: &[u8], elapsed_nanos: u128) -> (r: [u8; 32])
        ensures
            r@ == derived_session_key(laser@, ultrasound@, elapsed_nanos),
    {
        let mut combined: Vec<u8> = Vec::new();
        push_bytes(&mut combined, laser);
        push_bytes(&mut combined, ultrasound);
        push_be_u128(&mut combined, elapsed_nanos);
        let ikm = sha256_digest(combined.as_slice());
        let salt: [u8; 32] = [99u8, 111, 117, 112, 108, 101, 100, 95, 99, 104, 97, 110, 110, 101, 108, 95, 115, 101, 115, 115, 105, 111, 110, 95, 107, 101, 121, 95, 115, 97, 108, 116];
        let info: [u8; 32] = [99u8, 111, 117, 112, 108, 101, 100, 95, 99, 104, 97, 110, 110, 101, 108, 95, 115, 101, 115, 115, 105, 111, 110, 95, 107, 101, 121, 95, 105, 110, 102, 111];
        assert(salt@ =~= session_salt());
        assert(info@ =~= session_info());
        let mut key = [0u8; 32];
        let mut i: usize = 0;
        while i < 32
            invariant
                i <= 32,
                ikm@ == sha256(laser@ + ultrasound@ + be_bytes_u128(elapsed_nanos)),
                ikm@.len() == 32,
                salt@ == session_salt(),
                info@ == session_info(),
                forall|j: int| 0 <= j < i ==> key@[j] == ikm@[j] ^ session_salt()[j % 32] ^ session_info()[j % 32],
            decreases 32 - i,
        {
            key[i] = ikm[i] ^ salt[i % 32] ^ info[i % 32];
            i = i + 1;
        }
        assert(key@ =~= derived_session_key(laser@, ultrasound@, elapsed_nanos));
        key
    }

    /// Derives and sets the session key from coupled channel data and the
    /// session's age at `now_ms`.
    pub fn derive_session_key(&mut self, laser_data: &[u8], ultrasound_data: &[u8], now_ms: u64)
        ensures
            final(self).session_key() == Some(derived_session_key(
                laser_data@,
                ultrasound_data@,
                (elapsed(now_ms, old(self).session_start_ms()) * 1_000_000) as u128,
            )),
            final(self).config() == old(self).config(),
            final(self).phase() == old(self).phase(),
            final(self).metrics() == old(self).metrics(),
            final(self).used_nonces() == old(self).used_nonces(),
    {
        let age: u64 = if now_ms >= self.session_start_ms { now_ms - self.session_start_ms } else { 0 };
        let nanos: u128 = (age as u128) * 1_000_000;
        self.session_key = Some(Self::session_key_from(laser_data, ultrasound_data, nanos));
    }

    pub closed spec fn session_start_ms(&self) -> u64 {
        self.session_start_ms
    }

    /// Runs the four validation stages on a laser and an ultrasound record:
    /// temporal coupling, cross-channel authentication, anti-replay and
    /// coupling quality, stopping at the first failure. After each stage that
    /// passes the next phase is requested; a refused phase transition does not
    /// stop validation.
    pub fn perform_full_validation(&mut self, laser: &ChannelData, ultrasound: &ChannelData, now_ms: u64) -> (r: Result<(), ValidationError>)
        ensures
            ({
                let cfg = old(self).config();
                let diff = time_diff(laser.timestamp_ms, ultrasound.timestamp_ms);
                let fresh = fresh_nonces(old(self).used_nonces(), now_ms, cfg.max_replay_window_ms);
                let replay = nonce_seen(fresh, coupled_hash(laser.data@, ultrasound.data@));
                let below = below_threshold(diff, cfg.temporal_tolerance_ms, cfg.quality_threshold_permille);
                let p1 = next_phase(old(self).phase(), ValidationPhase::TemporalCouplingValidated, cfg.fallback_enabled);
                let p2 = next_phase(p1, ValidationPhase::CrossChannelSignatureVerified, cfg.fallback_enabled);
                let p3 = next_phase(p2, ValidationPhase::AntiReplayCheckPassed, cfg.fallback_enabled);
                let p4 = next_phase(p3, ValidationPhase::FullyValidated, cfg.fallback_enabled);
                &&& diff > cfg.temporal_tolerance_ms ==> r == Err::<(), ValidationError>(
                    ValidationError::TemporalCouplingFailed(diff, cfg.temporal_tolerance_ms),
                ) && final(self).phase() == old(self).phase() && final(self).used_nonces() == old(self).used_nonces()
                &&& diff <= cfg.temporal_tolerance_ms && replay ==> r == Err::<(), ValidationError>(ValidationError::AntiReplayFailed)
                    && final(self).phase() == p2 && final(self).used_nonces() == fresh
                &&& diff <= cfg.temporal_tolerance_ms && !replay && below ==> r == Err::<(), ValidationError>(
                    ValidationError::QualityThresholdFailed(coupling_quality(diff, cfg.temporal_tolerance_ms) as u32, cfg.quality_threshold_permille),
                ) && final(self).phase() == p3
                &&& diff <= cfg.temporal_tolerance_ms && !replay && !below ==> r is Ok && final(self).phase() == p4
                &&& diff <= cfg.temporal_tolerance_ms && !replay ==> final(self).used_nonces().drop_last() == fresh
                    && final(self).used_nonces().last().hash@ == coupled_hash(laser.data@, ultrasound.data@)
                    && final(self).used_nonces().last().seen_ms == now_ms
            }),
            r == validation_outcome(old(self).config(), old(self).used_nonces(), *laser, *ultrasound, now_ms),
            final(self).phase() == validation_phase_after(
                old(self).config(),
                old(self).phase(),
                old(self).used_nonces(),
                *laser,
                *ultrasound,
                now_ms,
            ),
            final(self).metrics().total_validations == bump(old(self).metrics().total_validations),
            r is Ok ==> final(self).metrics().successful_validations == bump(old(self).metrics().successful_validations),
            r is Err ==> final(self).metrics().successful_validations == old(self).metrics().successful_validations,
            final(self).config() == old(self).config(),
            final(self).laser_buffer() == old(self).laser_buffer(),
            final(self).ultrasound_buffer() == old(self).ultrasound_buffer(),
            final(self).session_key() == old(self).session_key(),
    {
        self.validation_metrics.total_validations = self.validation_metrics.total_validations.saturating_add(1);
        self.validate_temporal_coupling(laser, ultrasound)?;
        let _ = self.update_phase(ValidationPhase::TemporalCouplingValidated);
        let _ = self.validate_cross_channel_signature(laser, ultrasound, now_ms);
        let _ = self.update_phase(ValidationPhase::CrossChannelSignatureVerified);
        self.validate_anti_replay(laser, ultrasound, now_ms)?;
        let _ = self.update_phase(ValidationPhase::AntiReplayCheckPassed);
        self.validate_channel_quality(laser, ultrasound)?;
        let _ = self.update_phase(ValidationPhase::FullyValidated);
        self.validation_metrics.successful_validations = self.validation_metrics.successful_validations.saturating_add(1);
        Ok(())
    }

    fn is_stale(d: &ChannelData, now_ms: u64) -> (r: bool)
        ensures
            r == (elapsed(now_ms, d.timestamp_ms) > 1000),
    {
        let age: u64 = if now_ms >= d.timestamp_ms { now_ms - d.timestamp_ms } else { 0 };
        age > 1000
    }

    /// Drops records older than one second from the front of a buffer.
    fn drop_stale_front(buffer: &mut Vec<ChannelData>, now_ms: u64)
        ensures
            final(buffer)@ == drop_stale(old(buffer)@, now_ms),
    {
        while buffer.len() > 0 && Self::is_stale(&buffer[0], now_ms)
            invariant
                drop_stale(buffer@, now_ms) == drop_stale(old(buffer)@, now_ms),
            decreases buffer@.len(),
        {
            let ghost before = buffer@;
            let _ = buffer.remove(0);
            assert(buffer@ =~= before.drop_first());
        }
    }

    /// Receives a record on a channel: buffers it, drops buffered records older
    /// than one second, and validates the newest laser and ultrasound records
    /// once both channels hold one.
    pub fn receive_channel_data(&mut self, data: ChannelData, now_ms: u64) -> (r: Result<(), ValidationError>)
        ensures
            data.channel_type == ChannelType::Laser ==> final(self).laser_buffer() == drop_stale(old(self).laser_buffer().push(data), now_ms)
                && final(self).ultrasound_buffer() == old(self).ultrasound_buffer(),
            data.channel_type == ChannelType::Ultrasound ==> final(self).ultrasound_buffer() == drop_stale(old(self).ultrasound_buffer().push(data), now_ms)
                && final(self).laser_buffer() == old(self).laser_buffer(),
            final(self).laser_buffer().len() == 0 || final(self).ultrasound_buffer().len() == 0 ==> r is Ok
                && final(self).metrics() == old(self).metrics()
                && final(self).phase() == old(self).phase()
                && final(self).used_nonces() == old(self).used_nonces(),
            final(self).laser_buffer().len() > 0 && final(self).ultrasound_buffer().len() > 0 ==> final(self).metrics().total_validations
                == bump(old(self).metrics().total_validations),
            final(self).laser_buffer().len() > 0 && final(self).ultrasound_buffer().len() > 0 ==> r == validation_outcome(
                old(self).config(),
                old(self).used_nonces(),
                final(self).laser_buffer().last(),
                final(self).ultrasound_buffer().last(),
                now_ms,
            ) && final(self).phase() == validation_phase_after(
                old(self).config(),
                old(self).phase(),
                old(self).used_nonces(),
                final(self).laser_buffer().last(),
                final(self).ultrasound_buffer().last(),
                now_ms,
            ),
            final(self).config() == old(self).config(),
            final(self).session_key() == old(self).session_key(),
    {
        match data.channel_type {
            ChannelType::Laser => {
                self.laser_buffer.push(data);
                Self::drop_stale_front(&mut self.laser_buffer, now_ms);
            },
            ChannelType::Ultrasound => {
                self.ultrasound_buffer.push(data);
                Self::drop_stale_front(&mut self.ultrasound_buffer, now_ms);
            },
        }
        self.attempt_coupled_validation(now_ms)
    }

    /// Validates the newest laser and ultrasound records once both channels
    /// hold one; with either buffer empty there is nothing to validate yet.
    pub fn attempt_coupled_validation(&mut self, now_ms: u64) -> (r: Result<(), ValidationError>)
        ensures
            final(self).laser_buffer() == old(self).laser_buffer(),
            final(self).ultrasound_buffer() == old(self).ultrasound_buffer(),
            old(self).laser_buffer().len() == 0 || old(self).ultrasound_buffer().len() == 0 ==> r is Ok
                && final(self).metrics() == old(self).metrics()
                && final(self).phase() == old(self).phase()
                && final(self).used_nonces() == old(self).used_nonces(),
            old(self).laser_buffer().len() > 0 && old(self).ultrasound_buffer().len() > 0 ==> final(self).metrics().total_validations
                == bump(old(self).metrics().total_validations),
            old(self).laser_buffer().len() > 0 && old(self).ultrasound_buffer().len() > 0 ==> r == validation_outcome(
                old(self).config(),
                old(self).used_nonces(),
                old(self).laser_buffer().last(),
                old(self).ultrasound_buffer().last(),
                now_ms,
            ) && final(self).phase() == validation_phase_after(
                old(self).config(),
                old(self).phase(),
                old(self).used_nonces(),
                old(self).laser_buffer().last(),
                old(self).ultrasound_buffer().last(),
                now_ms,
            ),
            final(self).config() == old(self).config(),
            final(self).session_key() == old(self).session_key(),
    {
        let nl = self.laser_buffer.len();
        let nu = self.ultrasound_buffer.len();
        if nl > 0 && nu > 0 {
            let laser = self.laser_buffer[nl - 1].clone();
            let ultrasound = self.ultrasound_buffer[nu - 1].clone();
            self.perform_full_validation(&laser, &ultrasound, now_ms)
        } else {
            Ok(())
        }
    }

    /// Nominal quality of a channel, per-mille: 0.85 for the laser and 0.75
    /// for ultrasound, whatever the record holds.
    pub fn assess_channel_quality(&self, data: &ChannelData, channel_type: ChannelType) -> (r: u32)
        ensures
            r == (match channel_type {
                ChannelType::Laser => 850u32,
                ChannelType::Ultrasound => 750u32,
            }),
    {
        match channel_type {
            ChannelType::Laser => 850,
            ChannelType::Ultrasound => 750,
        }
    }
}

/// A coupled nonce recorded at one instant is refused as a replay at any
/// later instant inside the replay window: it is among the nonces that the
/// window keeps.
pub proof fn lemma_replay_refused_within_window(used: Seq<UsedNonce>, recorded: UsedNonce, now: u64, window: u64)
    requires
        recorded.seen_ms <= now,
        now - recorded.seen_ms < window,
    ensures
        nonce_seen(fresh_nonces(used.push(recorded), now, window), recorded.hash@),
{
    let f = fresh_nonces(used.push(recorded), now, window);
    assert(used.push(recorded).drop_last() =~= used);
    assert(f == fresh_nonces(used, now, window).push(recorded));
    assert(f[f.len() - 1] == recorded);
}

/// The four validation stages, passed in order from the idle phase, end in
/// the fully validated phase.
pub proof fn lemma_stages_reach_fully_validated(fallback_enabled: bool)
    ensures
        next_phase(
            next_phase(
                next_phase(
                    next_phase(ValidationPhase::Idle, ValidationPhase::TemporalCouplingValidated, fallback_enabled),
                    ValidationPhase::CrossChannelSignatureVerified,
                    fallback_enabled,
                ),
                ValidationPhase::AntiReplayCheckPassed,
                fallback_enabled,
            ),
            ValidationPhase::FullyValidated,
            fallback_enabled,
        ) == ValidationPhase::FullyValidated,
{
}

/// No phase but the fallback phase is reachable out of order: a transition
/// is accepted only along the stage order or into fallback mode.
pub proof fn lemma_transitions_follow_stage_order(from: ValidationPhase, to: ValidationPhase, fallback_enabled: bool)
    requires
        valid_transition(from, to, fallback_enabled),
        to != ValidationPhase::FallbackMode,
    ensures
        to == ValidationPhase::TemporalCouplingValidated ==> from == ValidationPhase::Idle,
        to == ValidationPhase::CrossChannelSignatureVerified ==> from == ValidationPhase::TemporalCouplingValidated,
        to == ValidationPhase::AntiReplayCheckPassed ==> from == ValidationPhase::CrossChannelSignatureVerified,
        to == ValidationPhase::FullyValidated ==> from == ValidationPhase::AntiReplayCheckPassed,
        to != ValidationPhase::Idle && to != ValidationPhase::SyncPulseReceived && to != ValidationPhase::LaserKeyReceived,
{
}

} // verus!

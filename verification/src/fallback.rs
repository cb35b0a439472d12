//! Automatic fallback between long-range and short-range communication:
//! channel health assessment, failure classification, session preservation
//! across a fallback, and recovery attempts.

use vstd::prelude::*;
use crate::laser::{AlignmentStatus, LaserError, channel_failures, detect_channel_failures};
use crate::protocol::{CommunicationMode, ProtocolEngine, ProtocolState};
use crate::ultrasonic_beam::{UltrasonicBeamEngine, UltrasonicBeamError, range_supported};

verus! {

/// Channel failures that can trigger a fallback.
#[derive(Debug, Clone, Copy, PartialEq, Eq, Structural)]
pub enum ChannelFailure {
    LaserBlocked,
    LaserAlignmentLost,
    LaserHardwareFailure,
    UltrasoundObstructed,
    UltrasoundInterference,
    UltrasoundHardwareFailure,
    EnvironmentalConditions,
    RangeExceeded,
    HardwareTimeout,
}

#[derive(Debug, Clone, Copy, PartialEq, Eq, Structural)]
pub enum FallbackMode {
    /// Fall back when a failure is detected.
    Automatic,
    /// Fall back only on request.
    Manual,
    /// Never fall back.
    Disabled,
}

#[derive(Debug, Clone, PartialEq, Eq)]
pub enum FallbackError {
    FallbackDisabled,
    HealthMonitoringFailed(String),
    ProtocolSwitchFailed(String),
    SessionPreservationFailed,
    RecoveryFailed(String),
    MaxRecoveryAttemptsExceeded,
    InvalidStateTransition,
}

/// Channel health, per-mille.
#[derive(Debug, Clone, Copy, PartialEq, Eq, Structural)]
pub struct ChannelHealth {
    pub laser_signal_strength_permille: u32,
    pub laser_alignment_status: bool,
    pub ultrasound_signal_strength_permille: u32,
    pub ultrasound_presence_detected: bool,
    pub overall_health_score_permille: u32,
    pub last_update_ms: u64,
}

/// Fallback configuration.
#[derive(Debug, Clone, Copy, PartialEq, Eq, Structural)]
pub struct FallbackConfig {
    pub mode: FallbackMode,
    pub health_check_interval_ms: u64,
    /// Health score below which a failure is declared, per-mille.
    pub failure_threshold_permille: u32,
    pub recovery_retry_interval_ms: u64,
    pub max_recovery_attempts: u32,
    pub graceful_degradation_timeout_ms: u64,
    pub session_preservation_enabled: bool,
    pub user_notifications_enabled: bool,
}

impl Default for FallbackConfig {
    /// Automatic fallback, health checked every second, failure below 0.3,
    /// recovery every 5 s for at most five attempts.
    fn default() -> (r: Self)
        ensures
            r == (FallbackConfig {
                mode: FallbackMode::Automatic,
                health_check_interval_ms: 1000,
                failure_threshold_permille: 300,
                recovery_retry_interval_ms: 5000,
                max_recovery_attempts: 5,
                graceful_degradation_timeout_ms: 2000,
                session_preservation_enabled: true,
                user_notifications_enabled: true,
            }),
    {
        FallbackConfig {
            mode: FallbackMode::Automatic,
            health_check_interval_ms: 1000,
            failure_threshold_permille: 300,
            recovery_retry_interval_ms: 5000,
            max_recovery_attempts: 5,
            graceful_degradation_timeout_ms: 2000,
            session_preservation_enabled: true,
            user_notifications_enabled: true,
        }
    }
}

/// Session parameters preserved across a fallback, in the form they are
/// serialized into a snapshot.
#[derive(Debug, Clone)]
pub struct CryptoStateSnapshot {
    pub session_id: [u8; 16],
    pub shared_secret: Option<[u8; 32]>,
    pub peer_public_key: Option<Vec<u8>>,
    pub protocol_state: ProtocolState,
    pub communication_mode: CommunicationMode,
}

/// Session state captured before a fallback.
#[derive(Debug)]
pub struct SessionSnapshot {
    pub session_id: [u8; 16],
    pub shared_secret: Option<[u8; 32]>,
    pub peer_public_key: Option<Vec<u8>>,
    pub protocol_state: ProtocolState,
    pub communication_mode: CommunicationMode,
    /// The session parameters, serialized.
    pub crypto_state: Vec<u8>,
    pub timestamp_ms: u64,
}

/// Fallback status for user notifications.
#[derive(Debug)]
pub struct FallbackStatus {
    pub active: bool,
    pub current_mode: CommunicationMode,
    pub failure_reason: Option<ChannelFailure>,
    pub fallback_time_ms: Option<u64>,
    pub recovery_attempts: u32,
    pub last_recovery_attempt_ms: Option<u64>,
    pub session_snapshot: Option<SessionSnapshot>,
}

/// What the laser channel reports for a health check.
#[derive(Debug, Clone, Copy, PartialEq, Eq, Structural)]
pub struct LaserReading {
    pub active: bool,
    pub alignment: AlignmentStatus,
    pub power_safe: bool,
}

/// Laser strength after one detected failure's penalty: alignment loss keeps
/// 30%, a safety violation 10%, unavailable hardware nothing, others 80%.
pub open spec fn laser_penalty(s: int, f: LaserError) -> int {
    match f {
        LaserError::AlignmentLost => s * 3 / 10,
        LaserError::SafetyViolation => s / 10,
        LaserError::HardwareUnavailable => 0,
        _ => s * 8 / 10,
    }
}

pub open spec fn laser_penalties(s: int, failures: Seq<LaserError>) -> int
    decreases failures.len(),
{
    if failures.len() == 0 {
        s
    } else {
        laser_penalty(laser_penalties(s, failures.drop_last()), failures.last())
    }
}

/// Ultrasound strength after one detected failure's penalty: unavailable
/// hardware nothing, failed presence detection 20%, range out of bounds 50%,
/// others 90%.
pub open spec fn ultrasound_penalty(s: int, f: UltrasonicBeamError) -> int {
    match f {
        UltrasonicBeamError::HardwareUnavailable => 0,
        UltrasonicBeamError::PresenceDetectionError => s * 2 / 10,
        UltrasonicBeamError::RangeOutOfBounds(_) => s * 5 / 10,
        _ => s * 9 / 10,
    }
}

pub open spec fn ultrasound_penalties(s: int, failures: Seq<UltrasonicBeamError>) -> int
    decreases failures.len(),
{
    if failures.len() == 0 {
        s
    } else {
        ultrasound_penalty(ultrasound_penalties(s, failures.drop_last()), failures.last())
    }
}

/// `a - b`, not below zero.
pub open spec fn sub_floor(a: int, b: int) -> int {
    if a > b {
        a - b
    } else {
        0
    }
}

/// Laser strength for a reading: nothing without an active laser; else the
/// signal, less 0.2 per detected failure (not below zero), then each
/// failure's penalty.
pub open spec fn laser_strength(reading: Option<LaserReading>) -> int {
    match reading {
        Some(r) => if r.active {
            let failures = channel_failures(r.active, r.alignment, r.power_safe);
            laser_penalties(sub_floor(r.alignment.signal_strength_permille as int, (200 * failures.len()) as int), failures)
        } else {
            0
        },
        None => 0,
    }
}

/// Bonus of the protocol state: 0.1 for a long-range connection, 0.05 for a
/// short-range one.
pub open spec fn state_bonus(s: ProtocolState) -> int {
    if s == ProtocolState::LongRangeConnected {
        100
    } else if s == ProtocolState::Connected {
        50
    } else {
        0
    }
}

/// Overall score: 0.6 of the laser and 0.4 of the ultrasound strength (for
/// the engines present), plus the state bonus, capped at 1.
pub open spec fn overall_score(laser_present: bool, laser: int, ultrasound_present: bool, ultrasound: int, state: ProtocolState) -> int {
    let weighted = ((if laser_present { laser * 6 } else { 0 }) + (if ultrasound_present { ultrasound * 4 } else { 0 })) / 10;
    if weighted + state_bonus(state) > 1000 {
        1000
    } else {
        weighted + state_bonus(state)
    }
}

/// The primary failure behind a health reading, by severity: a weak laser
/// (below 0.3) out of alignment, a very weak laser (below 0.2), weak
/// ultrasound (below 0.3) without presence, very weak ultrasound (below
/// 0.2), a low overall score (below 0.4).
pub open spec fn failure_reason(h: ChannelHealth) -> Option<ChannelFailure> {
    if h.laser_signal_strength_permille < 300 && !h.laser_alignment_status {
        Some(ChannelFailure::LaserAlignmentLost)
    } else if h.laser_signal_strength_permille < 200 {
        Some(ChannelFailure::LaserBlocked)
    } else if h.ultrasound_signal_strength_permille < 300 && !h.ultrasound_presence_detected {
        Some(ChannelFailure::UltrasoundObstructed)
    } else if h.ultrasound_signal_strength_permille < 200 {
        Some(ChannelFailure::UltrasoundInterference)
    } else if h.overall_health_score_permille < 400 {
        Some(ChannelFailure::EnvironmentalConditions)
    } else {
        None
    }
}

/// A laser whose signal has fallen below 0.2 while it stays aligned is
/// blocked; below 0.3 and misaligned it has lost alignment. Either way a
/// failure is reported.
pub proof fn lemma_weak_laser_is_a_failure(h: ChannelHealth)
    ensures
        h.laser_signal_strength_permille < 200 && h.laser_alignment_status ==> failure_reason(h) == Some(
            ChannelFailure::LaserBlocked,
        ),
        h.laser_signal_strength_permille < 300 && !h.laser_alignment_status ==> failure_reason(h) == Some(
            ChannelFailure::LaserAlignmentLost,
        ),
{
}

/// A reading is reported healthy exactly when neither channel is weak or
/// lost and the overall score is at least 0.4: the laser is at 0.2 or more
/// (0.3 or more when misaligned), ultrasound at 0.2 or more (0.3 or more
/// without presence).
pub proof fn lemma_no_failure_means_healthy(h: ChannelHealth)
    ensures
        (failure_reason(h) is None) <==> ({
            &&& h.laser_signal_strength_permille >= 200
            &&& (h.laser_alignment_status || h.laser_signal_strength_permille >= 300)
            &&& h.ultrasound_signal_strength_permille >= 200
            &&& (h.ultrasound_presence_detected || h.ultrasound_signal_strength_permille >= 300)
            &&& h.overall_health_score_permille >= 400
        }),
{
}

pub fn determine_failure_reason(health: &ChannelHealth) -> (r: Option<ChannelFailure>)
    ensures
        r == failure_reason(*health),
{
    if health.laser_signal_strength_permille < 300 && !health.laser_alignment_status {
        Some(ChannelFailure::LaserAlignmentLost)
    } else if health.laser_signal_strength_permille < 200 {
        Some(ChannelFailure::LaserBlocked)
    } else if health.ultrasound_signal_strength_permille < 300 && !health.ultrasound_presence_detected {
        Some(ChannelFailure::UltrasoundObstructed)
    } else if health.ultrasound_signal_strength_permille < 200 {
        Some(ChannelFailure::UltrasoundInterference)
    } else if health.overall_health_score_permille < 400 {
        Some(ChannelFailure::EnvironmentalConditions)
    } else {
        None
    }
}

fn apply_laser_penalties(s: u64, failures: &Vec<LaserError>) -> (r: u64)
    requires
        s <= 1000,
    ensures
        r == laser_penalties(s as int, failures@),
        r <= 1000,
{
    let mut v: u64 = s;
    let mut k: usize = 0;
    while k < failures.len()
        invariant
            k <= failures@.len(),
            v == laser_penalties(s as int, failures@.take(k as int)),
            v <= 1000,
        decreases failures@.len() - k,
    {
        assert(failures@.take(k + 1).drop_last() =~= failures@.take(k as int));
        v = match failures[k] {
            LaserError::AlignmentLost => v * 3 / 10,
            LaserError::SafetyViolation => v / 10,
            LaserError::HardwareUnavailable => 0,
            _ => v * 8 / 10,
        };
        k = k + 1;
    }
    assert(failures@.take(k as int) =~= failures@);
    v
}

fn apply_ultrasound_penalties(s: u64, failures: &Vec<UltrasonicBeamError>) -> (r: u64)
    requires
        s <= 1000,
    ensures
        r == ultrasound_penalties(s as int, failures@),
        r <= 1000,
{
    let mut v: u64 = s;
    let mut k: usize = 0;
    while k < failures.len()
        invariant
            k <= failures@.len(),
            v == ultrasound_penalties(s as int, failures@.take(k as int)),
            v <= 1000,
        decreases failures@.len() - k,
    {
        assert(failures@.take(k + 1).drop_last() =~= failures@.take(k as int));
        v = match &failures[k] {
            UltrasonicBeamError::HardwareUnavailable => 0,
            UltrasonicBeamError::PresenceDetectionError => v * 2 / 10,
            UltrasonicBeamError::RangeOutOfBounds(_) => v * 5 / 10,
            _ => v * 9 / 10,
        };
        k = k + 1;
    }
    assert(failures@.take(k as int) =~= failures@);
    v
}

/// Ultrasound strength of a beam: nothing without an active beam; else 0.8
/// with presence and 0.1 without, less 0.15 per detected failure (not below
/// zero), then each failure's penalty.
pub open spec fn ultrasound_strength(present: bool, active: bool, presence: bool, failures: Seq<UltrasonicBeamError>) -> int {
    if present && active {
        ultrasound_penalties(sub_floor(if presence { 800 } else { 100 }, (150 * failures.len()) as int), failures)
    } else {
        0
    }
}

/// The failures an active beam reports: presence detection always fails,
/// and an unsupported range is out of bounds.
pub open spec fn active_beam_failures(range_cm: u32) -> Seq<UltrasonicBeamError> {
    if range_supported(range_cm) {
        seq![UltrasonicBeamError::PresenceDetectionError]
    } else {
        seq![UltrasonicBeamError::PresenceDetectionError, UltrasonicBeamError::RangeOutOfBounds(range_cm)]
    }
}

/// Assesses channel health from the laser reading, the ultrasonic beam and
/// the protocol state. Signal strengths are capped at 1 before penalties.
pub fn assess_channel_health(
    laser: Option<LaserReading>,
    ultrasound: Option<&UltrasonicBeamEngine>,
    protocol_state: &ProtocolState,
    now_ms: u64,
) -> (r: ChannelHealth)
    requires
        laser matches Some(l) ==> l.alignment.signal_strength_permille <= 1000,
    ensures
        r.laser_signal_strength_permille == laser_strength(laser),
        r.laser_alignment_status == (laser matches Some(l) && l.active && l.alignment.is_aligned),
        r.overall_health_score_permille == overall_score(
            laser is Some,
            r.laser_signal_strength_permille as int,
            ultrasound is Some,
            r.ultrasound_signal_strength_permille as int,
            *protocol_state,
        ),
        r.overall_health_score_permille <= 1000,
        ultrasound is None ==> r.ultrasound_signal_strength_permille == 0 && !r.ultrasound_presence_detected,
        ultrasound matches Some(u) && !u.active() ==> r.ultrasound_signal_strength_permille == 0 && !r.ultrasound_presence_detected,
        ultrasound matches Some(u) ==> (u.active() ==> {
            &&& r.ultrasound_signal_strength_permille == ultrasound_strength(true, true, false, active_beam_failures(u.range_cm()))
            &&& r.ultrasound_signal_strength_permille == 0
            &&& !r.ultrasound_presence_detected
        }),
        r.last_update_ms == now_ms,
{
    let mut laser_strength: u64 = 0;
    let mut aligned = false;
    match laser {
        Some(l) => {
            if l.active {
                aligned = l.alignment.is_aligned;
                let failures = detect_channel_failures(l.active, l.alignment, l.power_safe);
                let penalty: u64 = 200 * (failures.len() as u64);
                let s = l.alignment.signal_strength_permille as u64;
                let base: u64 = if s > penalty { s - penalty } else { 0 };
                laser_strength = apply_laser_penalties(base, &failures);
            }
        },
        None => {},
    }
    let mut us_strength: u64 = 0;
    let mut presence = false;
    match ultrasound {
        Some(u) => {
            if u.is_active() {
                presence = match u.detect_presence() {
                    Ok(p) => p,
                    Err(_) => false,
                };
                let failures = u.detect_channel_failures();
                let start: u64 = if presence { 800 } else { 100 };
                let penalty: u64 = 150 * (failures.len() as u64);
                let base: u64 = if start > penalty { start - penalty } else { 0 };
                us_strength = apply_ultrasound_penalties(base, &failures);
                proof {
                    assert(!presence);
                    assert(base == 0);
                    if range_supported(u.range_cm()) {
                        assert(failures@.drop_last() =~= Seq::<UltrasonicBeamError>::empty());
                        assert(ultrasound_penalties(0, failures@.drop_last()) == 0);
                        assert(us_strength == ultrasound_penalty(0, failures@.last()));
                    } else {
                        assert(failures@.drop_last().drop_last() =~= Seq::<UltrasonicBeamError>::empty());
                        assert(ultrasound_penalties(0, failures@.drop_last().drop_last()) == 0);
                        assert(ultrasound_penalties(0, failures@.drop_last()) == 0);
                        assert(us_strength == ultrasound_penalty(0, failures@.last()));
                    }
                    assert(us_strength == 0);
                }
            }
        },
        None => {},
    }
    let lw: u64 = if laser.is_some() { laser_strength * 6 } else { 0 };
    let uw: u64 = if ultrasound.is_some() { us_strength * 4 } else { 0 };
    let weighted = (lw + uw) / 10;
    let bonus: u64 = match protocol_state {
        ProtocolState::LongRangeConnected => 100,
        ProtocolState::Connected => 50,
        _ => 0,
    };
    let overall: u64 = if weighted + bonus > 1000 { 1000 } else { weighted + bonus };
    ChannelHealth {
        laser_signal_strength_permille: laser_strength as u32,
        laser_alignment_status: aligned,
        ultrasound_signal_strength_permille: us_strength as u32,
        ultrasound_presence_detected: presence,
        overall_health_score_permille: overall as u32,
        last_update_ms: now_ms,
    }
}

/// Number of failures kept in the history.
pub const FAILURE_HISTORY_LIMIT: usize = 10;

/// What the recovery loop does after one tick.
#[derive(Debug, Clone, Copy, PartialEq, Eq, Structural)]
pub enum RecoveryStep {
    /// Stop monitoring: no fallback is active, or attempts are spent.
    Stop,
    /// Wait for the next tick.
    Wait,
    /// Long range looks healthy again: attempt recovery.
    AttemptRecovery,
}

/// The effect of recovering long range, from the manager and protocol
/// before to those after: the fallback is cleared, the protocol runs long
/// range, and the session comes back from the decoded snapshot when a
/// snapshot was taken and its parameters decoded.
pub open spec fn recovered(
    m0: FallbackManager,
    m1: FallbackManager,
    p0: ProtocolEngine,
    p1: ProtocolEngine,
    decoded: Option<CryptoStateSnapshot>,
) -> bool {
    &&& !m1.active()
    &&& m1.current_mode() == CommunicationMode::LongRange
    &&& m1.reason() is None
    &&& m1.fallback_time() is None
    &&& p1.mode() == CommunicationMode::LongRange
    &&& m0.has_snapshot() && decoded is Some ==> p1.session() == decoded->0.session_id@ && p1.state() == decoded->0.protocol_state
    &&& !(m0.has_snapshot() && decoded is Some) ==> p1.session() == p0.session() && p1.state() == p0.state()
}

/// The effect of falling back for `reason` at `now_ms` and then monitoring
/// recovery over `readings`: the session is preserved and the protocol goes
/// to short range with a fresh count of attempts; the attempts are then
/// those of `recovery_run`, and either long range is recovered or the
/// fallback stays active for `reason`.
pub open spec fn fallen_back(
    m0: FallbackManager,
    m1: FallbackManager,
    p0: ProtocolEngine,
    p1: ProtocolEngine,
    reason: ChannelFailure,
    readings: Seq<Option<u32>>,
    decoded: Option<CryptoStateSnapshot>,
    now_ms: u64,
) -> bool {
    let run = recovery_run(true, 0, m0.config().max_recovery_attempts, readings);
    &&& m1.attempts() == run.0
    &&& m1.has_snapshot()
    &&& m1.snapshot_session() == p0.session()
    &&& m1.config() == m0.config()
    &&& m1.history() == m0.history()
    &&& !run.1 ==> m1.active() && m1.current_mode() == CommunicationMode::ShortRange && m1.reason() == Some(reason)
        && m1.fallback_time() == Some(now_ms) && p1.mode() == CommunicationMode::ShortRange && p1.session() == p0.session()
        && p1.state() == p0.state()
    &&& run.1 ==> !m1.active() && m1.current_mode() == CommunicationMode::LongRange && m1.reason() is None
        && m1.fallback_time() is None && p1.mode() == CommunicationMode::LongRange
        && (decoded matches Some(d) ==> p1.session() == d.session_id@ && p1.state() == d.protocol_state)
        && (decoded is None ==> p1.session() == p0.session() && p1.state() == p0.state())
}

/// Recovery monitoring over a run of long-range health readings (per-mille,
/// none when the channels could not be assessed), one per retry interval:
/// while a fallback is active and attempts remain, each reading counts an
/// attempt, and a reading of at least 0.7 recovers long range and ends the
/// run. Gives the attempts made in all and whether long range was recovered.
pub open spec fn recovery_run(active: bool, attempts: u32, max_attempts: u32, readings: Seq<Option<u32>>) -> (u32, bool)
    decreases readings.len(),
{
    if readings.len() == 0 || !active || attempts >= max_attempts {
        (attempts, false)
    } else if readings[0] matches Some(h) && h >= 700 {
        ((attempts + 1) as u32, true)
    } else {
        recovery_run(active, (attempts + 1) as u32, max_attempts, readings.drop_first())
    }
}

/// Fallback manager for automatic channel switching.
#[derive(Debug)]
pub struct FallbackManager {
    config: FallbackConfig,
    current_health: ChannelHealth,
    fallback_status: FallbackStatus,
    failure_history: Vec<(ChannelFailure, u64)>,
}

impl FallbackManager {
    pub closed spec fn config(&self) -> FallbackConfig {
        self.config
    }

    pub closed spec fn health(&self) -> ChannelHealth {
        self.current_health
    }

    pub closed spec fn active(&self) -> bool {
        self.fallback_status.active
    }

    pub closed spec fn current_mode(&self) -> CommunicationMode {
        self.fallback_status.current_mode
    }

    pub closed spec fn reason(&self) -> Option<ChannelFailure> {
        self.fallback_status.failure_reason
    }

    pub closed spec fn attempts(&self) -> u32 {
        self.fallback_status.recovery_attempts
    }

    pub closed spec fn fallback_time(&self) -> Option<u64> {
        self.fallback_status.fallback_time_ms
    }

    pub closed spec fn has_snapshot(&self) -> bool {
        self.fallback_status.session_snapshot is Some
    }

    pub closed spec fn snapshot_session(&self) -> Seq<u8> {
        self.fallback_status.session_snapshot->0.session_id@
    }

    pub closed spec fn history(&self) -> Seq<(ChannelFailure, u64)> {
        self.failure_history@
    }

    pub closed spec fn wf(&self) -> bool {
        self.failure_history@.len() <= FAILURE_HISTORY_LIMIT
    }

    pub fn new(now_ms: u64) -> (r: Self)
        ensures
            r.wf(),
            r.config() == (FallbackConfig {
                mode: FallbackMode::Automatic,
                health_check_interval_ms: 1000,
                failure_threshold_permille: 300,
                recovery_retry_interval_ms: 5000,
                max_recovery_attempts: 5,
                graceful_degradation_timeout_ms: 2000,
                session_preservation_enabled: true,
                user_notifications_enabled: true,
            }),
            !r.active(),
            r.current_mode() == CommunicationMode::Auto,
            r.reason() is None,
            r.attempts() == 0,
            !r.has_snapshot(),
            r.history().len() == 0,
            r.health() == (ChannelHealth {
                laser_signal_strength_permille: 1000,
                laser_alignment_status: true,
                ultrasound_signal_strength_permille: 1000,
                ultrasound_presence_detected: true,
                overall_health_score_permille: 1000,
                last_update_ms: now_ms,
            }),
    {
        Self::with_config(FallbackConfig::default(), now_ms)
    }

    /// A manager with full health and no fallback active.
    pub fn with_config(config: FallbackConfig, now_ms: u64) -> (r: Self)
        ensures
            r.wf(),
            r.config() == config,
            !r.active(),
            r.current_mode() == CommunicationMode::Auto,
            r.reason() is None,
            r.attempts() == 0,
            !r.has_snapshot(),
            r.history().len() == 0,
            r.health() == (ChannelHealth {
                laser_signal_strength_permille: 1000,
                laser_alignment_status: true,
                ultrasound_signal_strength_permille: 1000,
                ultrasound_presence_detected: true,
                overall_health_score_permille: 1000,
                last_update_ms: now_ms,
            }),
    {
        FallbackManager {
            config,
            current_health: ChannelHealth {
                laser_signal_strength_permille: 1000,
                laser_alignment_status: true,
                ultrasound_signal_strength_permille: 1000,
                ultrasound_presence_detected: true,
                overall_health_score_permille: 1000,
                last_update_ms: now_ms,
            },
            fallback_status: FallbackStatus {
                active: false,
                current_mode: CommunicationMode::Auto,
                failure_reason: None,
                fallback_time_ms: None,
                recovery_attempts: 0,
                last_recovery_attempt_ms: None,
                session_snapshot: None,
            },
            failure_history: Vec::new(),
        }
    }

    /// Starting is refused when fallback is disabled; otherwise it says
    /// whether recovery monitoring should start (a fallback is active).
    pub fn start(&self) -> (r: Result<bool, FallbackError>)
        ensures
            self.config().mode == FallbackMode::Disabled ==> r == Err::<bool, FallbackError>(FallbackError::FallbackDisabled),
            self.config().mode != FallbackMode::Disabled ==> r == Ok::<bool, FallbackError>(self.active()),
    {
        match self.config.mode {
            FallbackMode::Disabled => Err(FallbackError::FallbackDisabled),
            _ => Ok(self.fallback_status.active),
        }
    }

    /// One health-monitoring tick: stores the reading; below the failure
    /// threshold, a classified failure is recorded (the ten newest are kept)
    /// and, in automatic mode without an active fallback, returned as the
    /// reason to fall back for.
    pub fn record_health(&mut self, health: ChannelHealth, now_ms: u64) -> (r: Option<ChannelFailure>)
        requires
            old(self).wf(),
        ensures
            final(self).wf(),
            final(self).health() == health,
            ({
                let failing = health.overall_health_score_permille < old(self).config().failure_threshold_permille;
                let reason = failure_reason(health);
                &&& !failing || reason is None ==> r is None && final(self).history() == old(self).history()
                &&& failing && reason is Some ==> final(self).history() == crate::optical_ecc::bounded_push(
                    old(self).history(),
                    (reason->0, now_ms),
                    FAILURE_HISTORY_LIMIT as nat,
                ) && r == (if !old(self).active() && old(self).config().mode == FallbackMode::Automatic {
                    reason
                } else {
                    None
                })
            }),
            final(self).config() == old(self).config(),
            final(self).active() == old(self).active(),
            final(self).current_mode() == old(self).current_mode(),
            final(self).attempts() == old(self).attempts(),
    {
        self.current_health = health;
        if health.overall_health_score_permille >= self.config.failure_threshold_permille {
            return None;
        }
        match determine_failure_reason(&health) {
            Some(reason) => {
                let ghost before = self.failure_history@;
                self.failure_history.push((reason, now_ms));
                if self.failure_history.len() > FAILURE_HISTORY_LIMIT {
                    let ghost pushed = self.failure_history@;
                    let _ = self.failure_history.remove(0);
                    assert(self.failure_history@ =~= pushed.drop_first());
                }
                if !self.fallback_status.active {
                    match self.config.mode {
                        FallbackMode::Automatic => Some(reason),
                        _ => None,
                    }
                } else {
                    None
                }
            },
            None => None,
        }
    }

    /// Captures the protocol's session parameters.
    fn preserve_session_state(&mut self, protocol: &ProtocolEngine, crypto_state: Vec<u8>, now_ms: u64)
        ensures
            final(self).has_snapshot(),
            final(self).snapshot_session() == protocol.session(),
            final(self).config() == old(self).config(),
            final(self).active() == old(self).active(),
            final(self).current_mode() == old(self).current_mode(),
            final(self).reason() == old(self).reason(),
            final(self).attempts() == old(self).attempts(),
            final(self).history() == old(self).history(),
            final(self).health() == old(self).health(),
    {
        let peer = match protocol.get_peer_public_key() {
            Some(k) => Some(k.clone()),
            None => None,
        };
        let snapshot = SessionSnapshot {
            session_id: protocol.get_session_id(),
            shared_secret: protocol.get_shared_secret(),
            peer_public_key: peer,
            protocol_state: protocol.get_state_value(),
            communication_mode: protocol.get_mode(),
            crypto_state,
            timestamp_ms: now_ms,
        };
        self.fallback_status.session_snapshot = Some(snapshot);
    }

    /// Enters short range: preserves the session (with its serialized
    /// parameters), switches the protocol to short range, and marks the
    /// fallback active for `reason` with no recovery attempts yet.
    fn enter_fallback(&mut self, protocol: &mut ProtocolEngine, reason: ChannelFailure, crypto_state: Vec<u8>, now_ms: u64)
        ensures
            final(self).active(),
            final(self).current_mode() == CommunicationMode::ShortRange,
            final(self).reason() == Some(reason),
            final(self).fallback_time() == Some(now_ms),
            final(self).attempts() == 0,
            final(self).has_snapshot(),
            final(self).snapshot_session() == old(protocol).session(),
            final(protocol).mode() == CommunicationMode::ShortRange,
            final(protocol).session() == old(protocol).session(),
            final(protocol).state() == old(protocol).state(),
            final(self).config() == old(self).config(),
            final(self).history() == old(self).history(),
    {
        self.preserve_session_state(protocol, crypto_state, now_ms);
        let _ = protocol.set_mode(CommunicationMode::ShortRange, now_ms);
        self.fallback_status.active = true;
        self.fallback_status.current_mode = CommunicationMode::ShortRange;
        self.fallback_status.failure_reason = Some(reason);
        self.fallback_status.fallback_time_ms = Some(now_ms);
        self.fallback_status.recovery_attempts = 0;
    }

    /// Runs recovery monitoring over the long-range health readings taken at
    /// each retry interval (see `recovery_run`). On recovery the session is
    /// restored from `decoded`, the snapshot's decoded parameters, and long
    /// range resumes; otherwise only the attempts change. Returns whether
    /// long range was recovered.
    pub fn run_recovery(
        &mut self,
        protocol: &mut ProtocolEngine,
        readings: &Vec<Option<u32>>,
        decoded: Option<CryptoStateSnapshot>,
        now_ms: u64,
    ) -> (r: bool)
        ensures
            ({
                let run = recovery_run(old(self).active(), old(self).attempts(), old(self).config().max_recovery_attempts, readings@);
                &&& final(self).attempts() == run.0
                &&& r == run.1
                &&& !run.1 ==> final(self).active() == old(self).active() && final(self).current_mode() == old(self).current_mode()
                    && final(self).reason() == old(self).reason() && final(self).fallback_time() == old(self).fallback_time()
                    && *final(protocol) == *old(protocol)
                &&& run.1 ==> recovered(*old(self), *final(self), *old(protocol), *final(protocol), decoded)
            }),
            final(self).has_snapshot() == old(self).has_snapshot(),
            final(self).snapshot_session() == old(self).snapshot_session(),
            final(self).config() == old(self).config(),
            final(self).history() == old(self).history(),
    {
        let mut i: usize = 0;
        assert(readings@.skip(0) =~= readings@);
        while i < readings.len()
            invariant
                i <= readings.len(),
                recovery_run(old(self).active(), old(self).attempts(), old(self).config().max_recovery_attempts, readings@)
                    == recovery_run(self.active(), self.attempts(), self.config().max_recovery_attempts, readings@.skip(i as int)),
                self.active() == old(self).active(),
                self.current_mode() == old(self).current_mode(),
                self.reason() == old(self).reason(),
                self.fallback_time() == old(self).fallback_time(),
                self.has_snapshot() == old(self).has_snapshot(),
                self.snapshot_session() == old(self).snapshot_session(),
                self.config() == old(self).config(),
                self.history() == old(self).history(),
                *protocol == *old(protocol),
            decreases readings.len() - i,
        {
            let ghost rest = readings@.skip(i as int);
            assert(rest.drop_first() =~= readings@.skip(i + 1));
            match self.recovery_tick(readings[i], now_ms) {
                RecoveryStep::Stop => {
                    return false;
                },
                RecoveryStep::Wait => {},
                RecoveryStep::AttemptRecovery => {
                    let _ = self.attempt_recovery(protocol, decoded, now_ms);
                    return true;
                },
            }
            i = i + 1;
        }
        assert(readings@.skip(i as int).len() == 0);
        false
    }

    /// Falls back to short range for `reason` (see `enter_fallback`), then
    /// runs recovery monitoring over the health readings that follow.
    pub fn trigger_fallback(
        &mut self,
        protocol: &mut ProtocolEngine,
        reason: ChannelFailure,
        crypto_state: Vec<u8>,
        readings: &Vec<Option<u32>>,
        decoded: Option<CryptoStateSnapshot>,
        now_ms: u64,
    ) -> (r: Result<(), FallbackError>)
        ensures
            r is Ok,
            fallen_back(*old(self), *final(self), *old(protocol), *final(protocol), reason, readings@, decoded, now_ms),
    {
        self.enter_fallback(protocol, reason, crypto_state, now_ms);
        let _ = self.run_recovery(protocol, readings, decoded, now_ms);
        Ok(())
    }

    /// Falls back on request, unless fallback is disabled, and runs recovery
    /// monitoring over the health readings that follow.
    pub fn manual_fallback(
        &mut self,
        protocol: &mut ProtocolEngine,
        reason: ChannelFailure,
        crypto_state: Vec<u8>,
        readings: &Vec<Option<u32>>,
        decoded: Option<CryptoStateSnapshot>,
        now_ms: u64,
    ) -> (r: Result<(), FallbackError>)
        ensures
            old(self).config().mode == FallbackMode::Disabled ==> r == Err::<(), FallbackError>(FallbackError::FallbackDisabled)
                && *final(self) == *old(self) && *final(protocol) == *old(protocol),
            old(self).config().mode != FallbackMode::Disabled ==> r is Ok && fallen_back(
                *old(self),
                *final(self),
                *old(protocol),
                *final(protocol),
                reason,
                readings@,
                decoded,
                now_ms,
            ),
    {
        match self.config.mode {
            FallbackMode::Disabled => Err(FallbackError::FallbackDisabled),
            _ => self.trigger_fallback(protocol, reason, crypto_state, readings, decoded, now_ms),
        }
    }

    /// One recovery-monitoring tick: stops when no fallback is active or the
    /// attempts are spent; otherwise counts an attempt and asks for recovery
    /// when the long-range health score reaches 0.7.
    pub fn recovery_tick(&mut self, health_score_permille: Option<u32>, now_ms: u64) -> (r: RecoveryStep)
        ensures
            !old(self).active() || old(self).attempts() >= old(self).config().max_recovery_attempts ==> r == RecoveryStep::Stop
                && final(self).attempts() == old(self).attempts(),
            old(self).active() && old(self).attempts() < old(self).config().max_recovery_attempts ==> final(self).attempts()
                == old(self).attempts() + 1 && r == (if health_score_permille matches Some(h) && h >= 700 {
                RecoveryStep::AttemptRecovery
            } else {
                RecoveryStep::Wait
            }),
            final(self).active() == old(self).active(),
            final(self).current_mode() == old(self).current_mode(),
            final(self).reason() == old(self).reason(),
            final(self).fallback_time() == old(self).fallback_time(),
            final(self).has_snapshot() == old(self).has_snapshot(),
            final(self).snapshot_session() == old(self).snapshot_session(),
            final(self).config() == old(self).config(),
            final(self).history() == old(self).history(),
    {
        if !self.fallback_status.active || self.fallback_status.recovery_attempts >= self.config.max_recovery_attempts {
            return RecoveryStep::Stop;
        }
        self.fallback_status.recovery_attempts = self.fallback_status.recovery_attempts + 1;
        self.fallback_status.last_recovery_attempt_ms = Some(now_ms);
        match health_score_permille {
            Some(h) => if h >= 700 {
                RecoveryStep::AttemptRecovery
            } else {
                RecoveryStep::Wait
            },
            None => RecoveryStep::Wait,
        }
    }

    /// Restores session parameters decoded from a snapshot into the protocol.
    pub fn restore_session_state(protocol: &mut ProtocolEngine, decoded: Option<CryptoStateSnapshot>)
        ensures
            decoded is None ==> final(protocol).session() == old(protocol).session() && final(protocol).state()
                == old(protocol).state() && final(protocol).mode() == old(protocol).mode(),
            decoded matches Some(d) ==> final(protocol).session() == d.session_id@ && final(protocol).state() == d.protocol_state
                && final(protocol).mode() == d.communication_mode && (d.shared_secret is None ==> final(protocol).secret() is None)
                && (d.shared_secret is Some ==> final(protocol).secret() == Some(d.shared_secret->0@)),
    {
        match decoded {
            Some(d) => {
                protocol.set_session_id(d.session_id);
                protocol.set_shared_secret(d.shared_secret);
                protocol.set_peer_public_key(d.peer_public_key);
                protocol.set_state(d.protocol_state);
                protocol.set_communication_mode(d.communication_mode);
            },
            None => {},
        }
    }

    /// Recovers long range: restores the preserved session (when a snapshot
    /// was taken and its parameters decode), switches the protocol to long
    /// range and clears the fallback.
    pub fn attempt_recovery(&mut self, protocol: &mut ProtocolEngine, decoded: Option<CryptoStateSnapshot>, now_ms: u64) -> (r: Result<(), FallbackError>)
        ensures
            r is Ok,
            !final(self).active(),
            final(self).current_mode() == CommunicationMode::LongRange,
            final(self).reason() is None,
            final(self).fallback_time() is None,
            final(protocol).mode() == CommunicationMode::LongRange,
            old(self).has_snapshot() && decoded is Some ==> final(protocol).session() == decoded->0.session_id@
                && final(protocol).state() == decoded->0.protocol_state,
            !(old(self).has_snapshot() && decoded is Some) ==> final(protocol).session() == old(protocol).session()
                && final(protocol).state() == old(protocol).state(),
            final(self).config() == old(self).config(),
            final(self).history() == old(self).history(),
            final(self).attempts() == old(self).attempts(),
            final(self).has_snapshot() == old(self).has_snapshot(),
            final(self).snapshot_session() == old(self).snapshot_session(),
    {
        if self.fallback_status.session_snapshot.is_some() {
            Self::restore_session_state(protocol, decoded);
        }
        let _ = protocol.set_mode(CommunicationMode::LongRange, now_ms);
        self.fallback_status.active = false;
        self.fallback_status.current_mode = CommunicationMode::LongRange;
        self.fallback_status.failure_reason = None;
        self.fallback_status.fallback_time_ms = None;
        Ok(())
    }

    pub fn get_fallback_status(&self) -> (r: &FallbackStatus)
        ensures
            r.active == self.active(),
            r.current_mode == self.current_mode(),
            r.failure_reason == self.reason(),
            r.recovery_attempts == self.attempts(),
    {
        &self.fallback_status
    }

    pub fn get_channel_health(&self) -> (r: ChannelHealth)
        ensures
            r == self.health(),
    {
        self.current_health
    }

    pub fn get_failure_history(&self) -> (r: Vec<(ChannelFailure, u64)>)
        ensures
            r@ == self.history(),
    {
        let mut out: Vec<(ChannelFailure, u64)> = Vec::new();
        let mut k: usize = 0;
        while k < self.failure_history.len()
            invariant
                k <= self.failure_history@.len(),
                out@ == self.failure_history@.take(k as int),
            decreases self.failure_history@.len() - k,
        {
            out.push(self.failure_history[k]);
            k = k + 1;
            assert(out@ =~= self.failure_history@.take(k as int));
        }
        assert(self.failure_history@.take(k as int) =~= self.failure_history@);
        out
    }

    pub fn get_config(&self) -> (r: FallbackConfig)
        ensures
            r == self.config(),
    {
        self.config
    }

    pub fn update_config(&mut self, config: FallbackConfig)
        ensures
            final(self).config() == config,
            final(self).active() == old(self).active(),
            final(self).wf() == old(self).wf(),
            final(self).history() == old(self).history(),
    {
        self.config = config;
    }

    pub fn is_fallback_active(&self) -> (r: bool)
        ensures
            r == self.active(),
    {
        self.fallback_status.active
    }
}

/// The snapshot of a protocol's session parameters that a fallback
/// preserves (and serializes).
pub fn crypto_state_snapshot(protocol: &ProtocolEngine) -> (r: CryptoStateSnapshot)
    ensures
        r.session_id@ == protocol.session(),
        r.shared_secret matches Some(k) ==> protocol.secret() == Some(k@),
        r.shared_secret is None ==> protocol.secret() is None,
        r.peer_public_key matches Some(k) ==> protocol.peer_key() == Some(k@),
        r.peer_public_key is None ==> protocol.peer_key() is None,
        r.protocol_state == protocol.state(),
        r.communication_mode == protocol.mode(),
{
    let peer = match protocol.get_peer_public_key() {
        Some(k) => Some(k.clone()),
        None => None,
    };
    CryptoStateSnapshot {
        session_id: protocol.get_session_id(),
        shared_secret: protocol.get_shared_secret(),
        peer_public_key: peer,
        protocol_state: protocol.get_state_value(),
        communication_mode: protocol.get_mode(),
    }
}

/// What the user is told when a failure forces the fallback.
pub open spec fn fallback_notice(reason: ChannelFailure) -> Seq<char> {
    match reason {
        ChannelFailure::LaserBlocked => "Laser communication blocked - switched to short-range mode"@,
        ChannelFailure::LaserAlignmentLost => "Laser alignment lost - switched to short-range mode"@,
        ChannelFailure::UltrasoundObstructed => "Ultrasound signal obstructed - switched to short-range mode"@,
        ChannelFailure::EnvironmentalConditions => "Poor environmental conditions - switched to short-range mode"@,
        _ => "Communication channel failure - switched to short-range mode"@,
    }
}

/// The notification for a fallback forced by `reason`.
pub fn send_fallback_notification(reason: &ChannelFailure) -> (r: String)
    ensures
        r@ == fallback_notice(*reason),
{
    match reason {
        ChannelFailure::LaserBlocked => "Laser communication blocked - switched to short-range mode".to_owned(),
        ChannelFailure::LaserAlignmentLost => "Laser alignment lost - switched to short-range mode".to_owned(),
        ChannelFailure::UltrasoundObstructed => "Ultrasound signal obstructed - switched to short-range mode".to_owned(),
        ChannelFailure::EnvironmentalConditions => "Poor environmental conditions - switched to short-range mode".to_owned(),
        _ => "Communication channel failure - switched to short-range mode".to_owned(),
    }
}

} // verus!

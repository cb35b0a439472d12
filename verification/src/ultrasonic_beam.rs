//! Focused ultrasonic beam channel: configuration checks, the short-range
//! control and synchronisation signals with their size limits, reception
//! buffering and failure detection.

use vstd::prelude::*;

verus! {

/// Errors of the ultrasonic beam.
#[derive(Debug, Clone, PartialEq, Eq)]
pub enum UltrasonicBeamError {
    BeamFormingError(String),
    ParametricAudioError,
    SyncPulseError,
    AuthSignalError,
    PresenceDetectionError,
    ControlChannelError,
    ReceptionError,
    InvalidParameters(String),
    HardwareUnavailable,
    /// The configured range, in centimeters, outside 10 to 30 m.
    RangeOutOfBounds(u32),
    AlignmentError,
    LowSignalStrength,
    InterferenceDetected,
}

/// Beam configuration, in fixed units.
#[derive(Debug, Clone)]
pub struct BeamConfig {
    /// Fundamental carrier bands, hertz.
    pub fundamental_bands: Vec<u32>,
    /// Harmonic carrier bands, hertz.
    pub harmonic_bands: Vec<u32>,
    pub modulation_frequency_hz: u32,
    /// Thousandths of a degree.
    pub beam_angle_mdeg: u32,
    /// Target range, centimeters.
    pub range_cm: u32,
    /// Transmission power, per-mille.
    pub power_level_permille: u32,
    /// Thousandths of a decibel.
    pub snr_threshold_mdb: i32,
    pub enable_beamforming: bool,
}

impl Default for BeamConfig {
    /// Fundamentals at 40, 48 and 56 kHz with harmonics at 80, 96 and
    /// 112 kHz, 1 kHz modulation, a 15° beam, 20 m range, 80% power, 10 dB SNR.
    fn default() -> (r: Self)
        ensures
            r.fundamental_bands@ == seq![40000u32, 48000, 56000],
            r.harmonic_bands@ == seq![80000u32, 96000, 112000],
            r.modulation_frequency_hz == 1000,
            r.beam_angle_mdeg == 15000,
            r.range_cm == 2000,
            r.power_level_permille == 800,
            r.snr_threshold_mdb == 10000,
            r.enable_beamforming,
    {
        BeamConfig {
            fundamental_bands: vec![40000u32, 48000, 56000],
            harmonic_bands: vec![80000u32, 96000, 112000],
            modulation_frequency_hz: 1000,
            beam_angle_mdeg: 15000,
            range_cm: 2000,
            power_level_permille: 800,
            snr_threshold_mdb: 10000,
            enable_beamforming: true,
        }
    }
}

/// Signals carried by the beam.
#[derive(Debug, Clone)]
pub enum BeamSignal {
    SyncPulse { duration_ms: u32, pattern: Vec<u8> },
    AuthSignal { challenge: Vec<u8>, signature: Vec<u8> },
    ControlData { data: Vec<u8>, priority: u8 },
    PresenceProbe { sequence_id: u32 },
}

/// A received beam signal.
#[derive(Debug, Clone)]
pub struct BeamReception {
    pub signal_type: BeamSignal,
    /// Per-mille.
    pub signal_strength_permille: u32,
    pub timestamp: u64,
    pub data: Vec<u8>,
}

/// Ranges the beam supports: 10 to 30 m.
pub open spec fn range_supported(range_cm: u32) -> bool {
    1000 <= range_cm <= 3000
}

/// Configurations the engine accepts: a supported range, at least one
/// fundamental band, fundamentals within 20-60 kHz and harmonics within
/// 40-120 kHz.
pub open spec fn config_valid(c: BeamConfig) -> bool {
    &&& range_supported(c.range_cm)
    &&& c.fundamental_bands@.len() > 0
    &&& forall|i: int| 0 <= i < c.fundamental_bands@.len() ==> 20000 <= #[trigger] c.fundamental_bands@[i] <= 60000
    &&& forall|i: int| 0 <= i < c.harmonic_bands@.len() ==> 40000 <= #[trigger] c.harmonic_bands@[i] <= 120000
}

/// Longest synchronisation pattern, bytes.
pub const SYNC_PATTERN_LIMIT: usize = 16;

/// Longest control message, bytes.
pub const CONTROL_DATA_LIMIT: usize = 32;

/// The ultrasonic beam channel.
#[derive(Debug)]
pub struct UltrasonicBeamEngine {
    config: BeamConfig,
    is_active: bool,
    reception_buffer: Vec<BeamReception>,
}

impl UltrasonicBeamEngine {
    pub closed spec fn active(&self) -> bool {
        self.is_active
    }

    pub closed spec fn range_cm(&self) -> u32 {
        self.config.range_cm
    }

    pub closed spec fn queue(&self) -> Seq<BeamReception> {
        self.reception_buffer@
    }

    pub closed spec fn pending(&self) -> nat {
        self.reception_buffer@.len()
    }

    /// The fundamental carrier bands, hertz.
    pub closed spec fn carrier_bands(&self) -> Seq<u32> {
        self.config.fundamental_bands@
    }

    /// Transmission power, per-mille.
    pub closed spec fn power_level(&self) -> u32 {
        self.config.power_level_permille
    }

    /// An inactive engine with the default configuration.
    pub fn new() -> (r: Self)
        ensures
            !r.active(),
            r.range_cm() == 2000,
            r.pending() == 0,
            r.carrier_bands() == seq![40000u32, 48000, 56000],
            r.power_level() == 800,
    {
        UltrasonicBeamEngine { config: BeamConfig::default(), is_active: false, reception_buffer: Vec::new() }
    }

    /// An inactive engine with a checked configuration.
    pub fn with_config(config: BeamConfig) -> (r: Result<Self, UltrasonicBeamError>)
        ensures
            r is Ok <==> config_valid(config),
            !range_supported(config.range_cm) ==> r == Err::<Self, UltrasonicBeamError>(
                UltrasonicBeamError::RangeOutOfBounds(config.range_cm),
            ),
            range_supported(config.range_cm) && r is Err ==> r->Err_0 is InvalidParameters,
            r is Ok ==> !r->Ok_0.active() && r->Ok_0.range_cm() == config.range_cm && r->Ok_0.pending() == 0
                && r->Ok_0.carrier_bands() == config.fundamental_bands@ && r->Ok_0.power_level() == config.power_level_permille,
    {
        if config.range_cm < 1000 || config.range_cm > 3000 {
            return Err(UltrasonicBeamError::RangeOutOfBounds(config.range_cm));
        }
        if config.fundamental_bands.len() == 0 {
            return Err(UltrasonicBeamError::InvalidParameters(String::new()));
        }
        let mut i: usize = 0;
        while i < config.fundamental_bands.len()
            invariant
                i <= config.fundamental_bands@.len(),
                range_supported(config.range_cm),
                forall|j: int| 0 <= j < i ==> 20000 <= #[trigger] config.fundamental_bands@[j] <= 60000,
            decreases config.fundamental_bands@.len() - i,
        {
            let f = config.fundamental_bands[i];
            if f < 20000 || f > 60000 {
                return Err(UltrasonicBeamError::InvalidParameters(String::new()));
            }
            i = i + 1;
        }
        let mut k: usize = 0;
        while k < config.harmonic_bands.len()
            invariant
                k <= config.harmonic_bands@.len(),
                range_supported(config.range_cm),
                config.fundamental_bands@.len() > 0,
                forall|j: int| 0 <= j < k ==> 40000 <= #[trigger] config.harmonic_bands@[j] <= 120000,
                forall|j: int| 0 <= j < config.fundamental_bands@.len() ==> 20000 <= #[trigger] config.fundamental_bands@[j] <= 60000,
            decreases config.harmonic_bands@.len() - k,
        {
            let h = config.harmonic_bands[k];
            if h < 40000 || h > 120000 {
                return Err(UltrasonicBeamError::InvalidParameters(String::new()));
            }
            k = k + 1;
        }
        Ok(UltrasonicBeamEngine { config, is_active: false, reception_buffer: Vec::new() })
    }

    pub fn initialize(&mut self) -> (r: Result<(), UltrasonicBeamError>)
        ensures
            r is Ok,
            final(self).active(),
            final(self).range_cm() == old(self).range_cm(),
            final(self).pending() == old(self).pending(),
            final(self).carrier_bands() == old(self).carrier_bands(),
            final(self).power_level() == old(self).power_level(),
    {
        self.is_active = true;
        Ok(())
    }

    /// Presence detection: unavailable when inactive; otherwise this beam
    /// reports no presence.
    pub fn detect_presence(&self) -> (r: Result<bool, UltrasonicBeamError>)
        ensures
            !self.active() ==> r == Err::<bool, UltrasonicBeamError>(UltrasonicBeamError::HardwareUnavailable),
            self.active() ==> r == Ok::<bool, UltrasonicBeamError>(false),
    {
        if !self.is_active {
            return Err(UltrasonicBeamError::HardwareUnavailable);
        }
        Ok(false)
    }

    /// Prepares a synchronisation pulse of 50 ms: patterns over 16 bytes are refused.
    pub fn transmit_sync_pulse(&self, pattern: &[u8]) -> (r: Result<BeamSignal, UltrasonicBeamError>)
        ensures
            !self.active() ==> r == Err::<BeamSignal, UltrasonicBeamError>(UltrasonicBeamError::HardwareUnavailable),
            self.active() && pattern@.len() > SYNC_PATTERN_LIMIT ==> r is Err && r->Err_0 is InvalidParameters,
            self.active() && pattern@.len() <= SYNC_PATTERN_LIMIT ==> r is Ok && (match r->Ok_0 {
                BeamSignal::SyncPulse { duration_ms, pattern: p } => duration_ms == 50 && p@ == pattern@,
                _ => false,
            }),
    {
        if !self.is_active {
            return Err(UltrasonicBeamError::HardwareUnavailable);
        }
        if pattern.len() > SYNC_PATTERN_LIMIT {
            return Err(UltrasonicBeamError::InvalidParameters(String::new()));
        }
        Ok(BeamSignal::SyncPulse { duration_ms: 50, pattern: vstd::slice::slice_to_vec(pattern) })
    }

    /// Prepares a control message: messages over 32 bytes are refused.
    pub fn transmit_control_data(&self, data: &[u8], priority: u8) -> (r: Result<BeamSignal, UltrasonicBeamError>)
        ensures
            !self.active() ==> r == Err::<BeamSignal, UltrasonicBeamError>(UltrasonicBeamError::HardwareUnavailable),
            self.active() && data@.len() > CONTROL_DATA_LIMIT ==> r is Err && r->Err_0 is InvalidParameters,
            self.active() && data@.len() <= CONTROL_DATA_LIMIT ==> r is Ok && (match r->Ok_0 {
                BeamSignal::ControlData { data: d, priority: p } => d@ == data@ && p == priority,
                _ => false,
            }),
    {
        if !self.is_active {
            return Err(UltrasonicBeamError::HardwareUnavailable);
        }
        if data.len() > CONTROL_DATA_LIMIT {
            return Err(UltrasonicBeamError::InvalidParameters(String::new()));
        }
        Ok(BeamSignal::ControlData { data: vstd::slice::slice_to_vec(data), priority })
    }

    /// Queues a received signal.
    pub fn record_reception(&mut self, reception: BeamReception)
        ensures
            final(self).pending() == old(self).pending() + 1,
            final(self).active() == old(self).active(),
            final(self).range_cm() == old(self).range_cm(),
            final(self).carrier_bands() == old(self).carrier_bands(),
            final(self).power_level() == old(self).power_level(),
    {
        self.reception_buffer.push(reception);
    }

    /// Takes every queued signal, oldest first.
    pub fn receive_beam_signals(&mut self) -> (r: Result<Vec<BeamReception>, UltrasonicBeamError>)
        ensures
            !old(self).active() ==> r == Err::<Vec<BeamReception>, UltrasonicBeamError>(UltrasonicBeamError::HardwareUnavailable)
                && final(self).pending() == old(self).pending(),
            old(self).active() ==> r is Ok && r->Ok_0@ == old(self).queue() && final(self).pending() == 0,
            final(self).active() == old(self).active(),
            final(self).range_cm() == old(self).range_cm(),
            final(self).carrier_bands() == old(self).carrier_bands(),
            final(self).power_level() == old(self).power_level(),
    {
        if !self.is_active {
            return Err(UltrasonicBeamError::HardwareUnavailable);
        }
        let mut signals: Vec<BeamReception> = Vec::new();
        std::mem::swap(&mut signals, &mut self.reception_buffer);
        Ok(signals)
    }

    pub fn get_config(&self) -> (r: &BeamConfig)
        ensures
            r.range_cm == self.range_cm(),
    {
        &self.config
    }

    /// Replaces the configuration when its range is supported.
    pub fn update_config(&mut self, config: BeamConfig) -> (r: Result<(), UltrasonicBeamError>)
        ensures
            !range_supported(config.range_cm) ==> r == Err::<(), UltrasonicBeamError>(UltrasonicBeamError::RangeOutOfBounds(config.range_cm))
                && final(self).range_cm() == old(self).range_cm(),
            range_supported(config.range_cm) ==> r is Ok && final(self).range_cm() == config.range_cm,
            final(self).active() == old(self).active(),
            final(self).pending() == old(self).pending(),
            range_supported(config.range_cm) ==> final(self).carrier_bands() == config.fundamental_bands@
                && final(self).power_level() == config.power_level_permille,
            !range_supported(config.range_cm) ==> final(self).carrier_bands() == old(self).carrier_bands()
                && final(self).power_level() == old(self).power_level(),
    {
        if config.range_cm < 1000 || config.range_cm > 3000 {
            return Err(UltrasonicBeamError::RangeOutOfBounds(config.range_cm));
        }
        self.config = config;
        Ok(())
    }

    pub fn is_active(&self) -> (r: bool)
        ensures
            r == self.active(),
    {
        self.is_active
    }

    /// Failures of the beam: an inactive beam is unavailable; an active one
    /// reports a failed presence detection, and a range outside 10-30 m.
    pub fn detect_channel_failures(&self) -> (r: Vec<UltrasonicBeamError>)
        ensures
            !self.active() ==> r@ == seq![UltrasonicBeamError::HardwareUnavailable],
            self.active() && range_supported(self.range_cm()) ==> r@ == seq![UltrasonicBeamError::PresenceDetectionError],
            self.active() && !range_supported(self.range_cm()) ==> r@ == seq![
                UltrasonicBeamError::PresenceDetectionError,
                UltrasonicBeamError::RangeOutOfBounds(self.range_cm()),
            ],
    {
        let mut failures: Vec<UltrasonicBeamError> = Vec::new();
        if !self.is_active {
            failures.push(UltrasonicBeamError::HardwareUnavailable);
            assert(failures@ =~= seq![UltrasonicBeamError::HardwareUnavailable]);
            return failures;
        }
        match self.detect_presence() {
            Ok(present) => {
                if !present {
                    failures.push(UltrasonicBeamError::PresenceDetectionError);
                }
            },
            Err(_) => {
                failures.push(UltrasonicBeamError::PresenceDetectionError);
            },
        }
        if self.config.range_cm < 1000 || self.config.range_cm > 3000 {
            failures.push(UltrasonicBeamError::RangeOutOfBounds(self.config.range_cm));
        }
        proof {
            if range_supported(self.range_cm()) {
                assert(failures@ =~= seq![UltrasonicBeamError::PresenceDetectionError]);
            } else {
                assert(failures@ =~= seq![
                    UltrasonicBeamError::PresenceDetectionError,
                    UltrasonicBeamError::RangeOutOfBounds(self.range_cm()),
                ]);
            }
        }
        failures
    }

    pub fn shutdown(&mut self) -> (r: Result<(), UltrasonicBeamError>)
        ensures
            r is Ok,
            !final(self).active(),
            final(self).range_cm() == old(self).range_cm(),
            final(self).pending() == old(self).pending(),
            final(self).carrier_bands() == old(self).carrier_bands(),
            final(self).power_level() == old(self).power_level(),
    {
        self.is_active = false;
        Ok(())
    }
}

/// Diagnostics of the beam channel.
#[derive(Debug, Clone)]
pub struct UltrasonicChannelDiagnostics {
    pub is_active: bool,
    pub presence_detected: bool,
    /// Centimeters.
    pub configured_range_cm: u32,
    /// The first fundamental band, hertz.
    pub carrier_frequency_hz: u32,
    /// Per-mille.
    pub power_level_permille: u32,
    pub detected_failures: Vec<UltrasonicBeamError>,
}

impl UltrasonicBeamEngine {
    /// Diagnostics: activity, presence (none when detection fails), the
    /// configured range, the first carrier band, the power level and the
    /// detected failures.
    pub fn get_channel_diagnostics(&self) -> (r: UltrasonicChannelDiagnostics)
        requires
            self.carrier_bands().len() > 0,
        ensures
            r.is_active == self.active(),
            !r.presence_detected,
            r.configured_range_cm == self.range_cm(),
            r.carrier_frequency_hz == self.carrier_bands()[0],
            r.power_level_permille == self.power_level(),
            !self.active() ==> r.detected_failures@ == seq![UltrasonicBeamError::HardwareUnavailable],
            self.active() && range_supported(self.range_cm()) ==> r.detected_failures@ == seq![
                UltrasonicBeamError::PresenceDetectionError,
            ],
            self.active() && !range_supported(self.range_cm()) ==> r.detected_failures@ == seq![
                UltrasonicBeamError::PresenceDetectionError,
                UltrasonicBeamError::RangeOutOfBounds(self.range_cm()),
            ],
    {
        let presence_detected = match self.detect_presence() {
            Ok(p) => p,
            Err(_) => false,
        };
        UltrasonicChannelDiagnostics {
            is_active: self.is_active,
            presence_detected,
            configured_range_cm: self.config.range_cm,
            carrier_frequency_hz: self.config.fundamental_bands[0],
            power_level_permille: self.config.power_level_permille,
            detected_failures: self.detect_channel_failures(),
        }
    }
}

} // verus!

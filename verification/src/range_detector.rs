//! Ultrasonic ranging: range categories, measurement validation, the
//! bounded measurement history that the adaptive profiles read, and the
//! detector that keeps them. Timing echoes and estimating the speed of sound
//! and a measurement's quality are done by the hardware side.

use vstd::prelude::*;
use crate::laser::{ModulationScheme, RangeEnvironmentalConditions};

verus! {

/// Errors of range detection.
#[derive(Debug, Clone, PartialEq, Eq)]
pub enum RangeDetectorError {
    HardwareInitFailed,
    TransmissionFailed,
    EchoDetectionFailed,
    InvalidMeasurement(String),
    Timeout,
    LowSignalStrength,
    InterferenceDetected,
    TemperatureCompensationFailed,
}

/// Range categories for adaptive profiles: close 10-50 m, medium 50-100 m,
/// far 100-150 m, extreme 150-200 m.
#[derive(Debug, Clone, Copy, PartialEq, Eq, Structural)]
pub enum RangeDetectorCategory {
    Close,
    Medium,
    Far,
    Extreme,
}

/// Modulation scheme suited to a category.
pub open spec fn optimal_modulation_for(c: RangeDetectorCategory) -> ModulationScheme {
    match c {
        RangeDetectorCategory::Close => ModulationScheme::Ook,
        RangeDetectorCategory::Medium => ModulationScheme::Pwm,
        RangeDetectorCategory::Far => ModulationScheme::Manchester,
        RangeDetectorCategory::Extreme => ModulationScheme::QrProjection,
    }
}

/// Category of a distance in centimeters.
pub open spec fn category_of_distance(distance_cm: u32) -> RangeDetectorCategory {
    if distance_cm < 5000 {
        RangeDetectorCategory::Close
    } else if distance_cm < 10000 {
        RangeDetectorCategory::Medium
    } else if distance_cm < 15000 {
        RangeDetectorCategory::Far
    } else {
        RangeDetectorCategory::Extreme
    }
}

impl RangeDetectorCategory {
    /// Category of a distance in centimeters.
    pub fn from_distance(distance_cm: u32) -> (r: Self)
        ensures
            r == category_of_distance(distance_cm),
    {
        if distance_cm < 5000 {
            RangeDetectorCategory::Close
        } else if distance_cm < 10000 {
            RangeDetectorCategory::Medium
        } else if distance_cm < 15000 {
            RangeDetectorCategory::Far
        } else {
            RangeDetectorCategory::Extreme
        }
    }

    /// Lower and upper bound of the category, in meters.
    pub fn get_range_bounds(&self) -> (r: (u32, u32))
        ensures
            r == (match *self {
                RangeDetectorCategory::Close => (10u32, 50u32),
                RangeDetectorCategory::Medium => (50u32, 100u32),
                RangeDetectorCategory::Far => (100u32, 150u32),
                RangeDetectorCategory::Extreme => (150u32, 200u32),
            }),
    {
        match self {
            RangeDetectorCategory::Close => (10, 50),
            RangeDetectorCategory::Medium => (50, 100),
            RangeDetectorCategory::Far => (100, 150),
            RangeDetectorCategory::Extreme => (150, 200),
        }
    }

    /// Modulation scheme suited to the category: on-off keying close,
    /// pulse-width medium, Manchester far, QR projection extreme.
    pub fn optimal_modulation(&self) -> (r: ModulationScheme)
        ensures
            r == optimal_modulation_for(*self),
    {
        match self {
            RangeDetectorCategory::Close => ModulationScheme::Ook,
            RangeDetectorCategory::Medium => ModulationScheme::Pwm,
            RangeDetectorCategory::Far => ModulationScheme::Manchester,
            RangeDetectorCategory::Extreme => ModulationScheme::QrProjection,
        }
    }
}

/// Ranging configuration, in fixed units.
#[derive(Debug, Clone, Copy, PartialEq, Eq, Structural)]
pub struct RangingConfig {
    pub pulse_frequency_hz: u32,
    pub pulse_duration_us: u32,
    pub listening_timeout_ms: u32,
    /// Minimum detectable range, centimeters.
    pub min_range_cm: u32,
    /// Maximum detectable range, centimeters.
    pub max_range_cm: u32,
    /// Speed of sound, millimeters per second.
    pub speed_of_sound_mm_per_s: u32,
    /// Minimum signal strength for a valid echo, per-mille.
    pub signal_threshold_permille: u32,
    pub averaging_samples: usize,
    /// Ambient temperature, thousandths of a degree Celsius.
    pub temperature_mdeg_c: i32,
}

impl Default for RangingConfig {
    /// 40 kHz pulses of 200 µs, 1.2 s listening, 10 to 200 m, 343 m/s,
    /// threshold 0.3, five samples, 20 °C.
    fn default() -> (r: Self)
        ensures
            r == (RangingConfig {
                pulse_frequency_hz: 40000,
                pulse_duration_us: 200,
                listening_timeout_ms: 1200,
                min_range_cm: 1000,
                max_range_cm: 20000,
                speed_of_sound_mm_per_s: 343000,
                signal_threshold_permille: 300,
                averaging_samples: 5,
                temperature_mdeg_c: 20000,
            }),
    {
        RangingConfig {
            pulse_frequency_hz: 40000,
            pulse_duration_us: 200,
            listening_timeout_ms: 1200,
            min_range_cm: 1000,
            max_range_cm: 20000,
            speed_of_sound_mm_per_s: 343000,
            signal_threshold_permille: 300,
            averaging_samples: 5,
            temperature_mdeg_c: 20000,
        }
    }
}

/// One range measurement, in fixed units.
#[derive(Debug, Clone, Copy, PartialEq, Eq, Structural)]
pub struct RangeMeasurement {
    pub distance_cm: u32,
    pub signal_strength_permille: u32,
    pub timestamp_ms: u64,
    pub quality_score_permille: u32,
    pub temperature_compensated: bool,
}

/// Distance in centimeters for a round-trip echo time: half the path that
/// sound covers in that time.
pub open spec fn echo_distance_cm(echo_time_us: u64, speed_mm_per_s: u32) -> int {
    echo_time_us * speed_mm_per_s / 20_000_000
}

/// Distance of an echo, in centimeters.
pub fn distance_from_echo(echo_time_us: u64, speed_mm_per_s: u32) -> (r: u128)
    ensures
        r == echo_distance_cm(echo_time_us, speed_mm_per_s),
{
    assert((echo_time_us as u128) * (speed_mm_per_s as u128) <= 0xffff_ffff_ffff_ffffu128 * 0xffff_ffffu128) by (nonlinear_arith);
    (echo_time_us as u128) * (speed_mm_per_s as u128) / 20_000_000
}

/// Checks an echo against the configuration: a signal below the threshold is
/// too weak, a distance outside the configured bounds is invalid.
pub fn validate_measurement(config: &RangingConfig, distance_cm: u128, signal_strength_permille: u32) -> (r: Result<(), RangeDetectorError>)
    ensures
        signal_strength_permille < config.signal_threshold_permille ==> r == Err::<(), RangeDetectorError>(RangeDetectorError::LowSignalStrength),
        signal_strength_permille >= config.signal_threshold_permille ==> (r is Ok <==> config.min_range_cm <= distance_cm <= config.max_range_cm),
        r is Err && signal_strength_permille >= config.signal_threshold_permille ==> r->Err_0 is InvalidMeasurement,
{
    if signal_strength_permille < config.signal_threshold_permille {
        return Err(RangeDetectorError::LowSignalStrength);
    }
    if distance_cm < config.min_range_cm as u128 || distance_cm > config.max_range_cm as u128 {
        return Err(RangeDetectorError::InvalidMeasurement(String::new()));
    }
    Ok(())
}

/// Number of measurements kept by the detector.
pub const MEASUREMENT_HISTORY_LIMIT: usize = 100;

/// Bounded history of range measurements.
#[derive(Debug)]
pub struct MeasurementHistory {
    measurements: Vec<RangeMeasurement>,
}

impl MeasurementHistory {
    pub closed spec fn view(&self) -> Seq<RangeMeasurement> {
        self.measurements@
    }

    pub closed spec fn wf(&self) -> bool {
        self.measurements@.len() <= MEASUREMENT_HISTORY_LIMIT
    }

    pub fn new() -> (r: Self)
        ensures
            r.wf(),
            r.view() == Seq::<RangeMeasurement>::empty(),
    {
        MeasurementHistory { measurements: Vec::new() }
    }

    /// Stores a measurement, dropping the oldest when a hundred are kept.
    pub fn store_measurement(&mut self, measurement: RangeMeasurement)
        requires
            old(self).wf(),
        ensures
            final(self).wf(),
            final(self).view() == (if old(self).view().len() >= MEASUREMENT_HISTORY_LIMIT {
                old(self).view().drop_first()
            } else {
                old(self).view()
            }).push(measurement),
    {
        if self.measurements.len() >= MEASUREMENT_HISTORY_LIMIT {
            let ghost before = self.measurements@;
            let _ = self.measurements.remove(0);
            assert(self.measurements@ =~= before.drop_first());
        }
        self.measurements.push(measurement);
    }

    pub fn get_measurement_history(&self) -> (r: Vec<RangeMeasurement>)
        ensures
            r@ == self.view(),
    {
        self.measurements.clone()
    }

    /// Category of the newest measurement, if any.
    pub fn get_current_range_category(&self) -> (r: Option<RangeDetectorCategory>)
        ensures
            self.view().len() == 0 ==> r is None,
            self.view().len() > 0 ==> r == Some(category_of_distance(self.view().last().distance_cm)),
    {
        let n = self.measurements.len();
        if n == 0 {
            None
        } else {
            Some(RangeDetectorCategory::from_distance(self.measurements[n - 1].distance_cm))
        }
    }
}

/// Weights (per-mille) of the three ranging frequencies, 35, 40 and
/// 45 kHz: the centre frequency counts most.
pub open spec fn frequency_weights() -> Seq<u32> {
    seq![300u32, 500u32, 200u32]
}

/// Sums over the first `n` per-frequency results: how many succeeded, their
/// total weight, their weighted distance, and their signal and quality sums.
pub open spec fn frequency_sums(
    results: Seq<Result<RangeMeasurement, RangeDetectorError>>,
    weights: Seq<u32>,
    n: nat,
) -> (nat, nat, nat, nat, nat)
    decreases n,
{
    if n == 0 {
        (0, 0, 0, 0, 0)
    } else {
        let p = frequency_sums(results, weights, (n - 1) as nat);
        match results[n - 1] {
            Ok(m) => (
                p.0 + 1,
                p.1 + weights[n - 1] as nat,
                p.2 + (weights[n - 1] as nat) * (m.distance_cm as nat),
                p.3 + m.signal_strength_permille as nat,
                p.4 + m.quality_score_permille as nat,
            ),
            Err(_) => p,
        }
    }
}

/// The measurement combined from per-frequency results taken at `now_ms`:
/// failed frequencies are skipped, none succeeding is an echo failure;
/// otherwise the distance is the weighted mean and the signal strength and
/// quality are the plain means of the successes (all rounded down).
pub open spec fn combined_measurement(
    results: Seq<Result<RangeMeasurement, RangeDetectorError>>,
    weights: Seq<u32>,
    now_ms: u64,
) -> Result<RangeMeasurement, RangeDetectorError> {
    let s = frequency_sums(results, weights, results.len());
    if s.0 == 0 {
        Err(RangeDetectorError::EchoDetectionFailed)
    } else {
        Ok(
            RangeMeasurement {
                distance_cm: (s.2 / s.1) as u32,
                signal_strength_permille: (s.3 / s.0) as u32,
                timestamp_ms: now_ms,
                quality_score_permille: (s.4 / s.0) as u32,
                temperature_compensated: true,
            },
        )
    }
}

proof fn lemma_mean_fits(sum: nat, count: nat, max: nat)
    requires
        count > 0,
        sum <= count * max,
    ensures
        sum / count <= max,
{
    assert(sum / count <= max) by (nonlinear_arith)
        requires
            count > 0,
            sum <= count * max,
    ;
}

/// Combines the results of ranging at several frequencies (see
/// `combined_measurement`); every weight is positive.
pub fn combine_frequency_measurements(
    results: &Vec<Result<RangeMeasurement, RangeDetectorError>>,
    weights_permille: &Vec<u32>,
    now_ms: u64,
) -> (r: Result<RangeMeasurement, RangeDetectorError>)
    requires
        results@.len() == weights_permille@.len(),
        forall|i: int| 0 <= i < weights_permille@.len() ==> #[trigger] weights_permille@[i] > 0,
    ensures
        r == combined_measurement(results@, weights_permille@, now_ms),
        r is Err <==> forall|i: int| 0 <= i < results@.len() ==> #[trigger] results@[i] is Err,
{
    let ghost m: nat = 0xFFFF_FFFFnat;
    let mut count: u128 = 0;
    let mut weight_sum: u128 = 0;
    let mut weighted: u128 = 0;
    let mut signal_sum: u128 = 0;
    let mut quality_sum: u128 = 0;
    let mut i: usize = 0;
    while i < results.len()
        invariant
            results@.len() == weights_permille@.len(),
            forall|k: int| 0 <= k < weights_permille@.len() ==> #[trigger] weights_permille@[k] > 0,
            m == 0xFFFF_FFFFnat,
            i <= results.len(),
            (count as nat, weight_sum as nat, weighted as nat, signal_sum as nat, quality_sum as nat) == frequency_sums(
                results@,
                weights_permille@,
                i as nat,
            ),
            count <= i,
            weight_sum <= i * m,
            weighted <= weight_sum * m,
            signal_sum <= count * m,
            quality_sum <= count * m,
            count >= 1 ==> weight_sum >= 1,
            count == 0 <==> forall|k: int| 0 <= k < i ==> #[trigger] results@[k] is Err,
        decreases results.len() - i,
    {
        match &results[i] {
            Ok(meas) => {
                let w = weights_permille[i];
                let d = meas.distance_cm;
                assert((w as nat) * (d as nat) <= (w as nat) * m) by (nonlinear_arith)
                    requires
                        d <= m,
                ;
                assert(weighted + (w as nat) * (d as nat) <= (weight_sum + w) * m) by (nonlinear_arith)
                    requires
                        weighted <= weight_sum * m,
                        (w as nat) * (d as nat) <= (w as nat) * m,
                ;
                assert((weight_sum + w) * m <= (i + 1) * m * m) by (nonlinear_arith)
                    requires
                        weight_sum <= i * m,
                        w <= m,
                ;
                assert((i + 1) * m * m < 0x1_0000_0000_0000_0000_0000_0000_0000_0000) by (nonlinear_arith)
                    requires
                        i < 0x1_0000_0000_0000_0000,
                        m == 0xFFFF_FFFFnat,
                ;
                count = count + 1;
                weight_sum = weight_sum + w as u128;
                weighted = weighted + (w as u128) * (d as u128);
                signal_sum = signal_sum + meas.signal_strength_permille as u128;
                quality_sum = quality_sum + meas.quality_score_permille as u128;
            },
            Err(_) => {},
        }
        i = i + 1;
    }
    assert(results@.len() == i);
    if count == 0 {
        return Err(RangeDetectorError::EchoDetectionFailed);
    }
    proof {
        lemma_mean_fits(weighted as nat, weight_sum as nat, m);
        lemma_mean_fits(signal_sum as nat, count as nat, m);
        lemma_mean_fits(quality_sum as nat, count as nat, m);
    }
    Ok(
        RangeMeasurement {
            distance_cm: (weighted / weight_sum) as u32,
            signal_strength_permille: (signal_sum / count) as u32,
            timestamp_ms: now_ms,
            quality_score_permille: (quality_sum / count) as u32,
            temperature_compensated: true,
        },
    )
}

/// The ultrasonic range detector: its configuration, whether the hardware
/// is up, the surroundings it compensates for, and its measurements.
#[derive(Debug)]
pub struct RangeDetector {
    config: RangingConfig,
    is_active: bool,
    measurement_history: MeasurementHistory,
    environmental_conditions: RangeEnvironmentalConditions,
}

impl RangeDetector {
    pub closed spec fn configuration(&self) -> RangingConfig {
        self.config
    }

    pub closed spec fn active(&self) -> bool {
        self.is_active
    }

    pub closed spec fn history(&self) -> Seq<RangeMeasurement> {
        self.measurement_history.view()
    }

    pub closed spec fn environment(&self) -> RangeEnvironmentalConditions {
        self.environmental_conditions
    }

    pub closed spec fn wf(&self) -> bool {
        self.measurement_history.wf()
    }

    /// An inactive detector with the default configuration.
    pub fn new() -> (r: Self)
        ensures
            r.wf(),
            !r.active(),
            r.history().len() == 0,
    {
        Self::with_config(RangingConfig::default())
    }

    /// An inactive detector with no measurements, in default surroundings.
    pub fn with_config(config: RangingConfig) -> (r: Self)
        ensures
            r.wf(),
            r.configuration() == config,
            !r.active(),
            r.history().len() == 0,
    {
        RangeDetector {
            config,
            is_active: false,
            measurement_history: MeasurementHistory::new(),
            environmental_conditions: RangeEnvironmentalConditions::default(),
        }
    }

    pub fn initialize(&mut self) -> (r: Result<(), RangeDetectorError>)
        ensures
            r is Ok,
            final(self).active(),
            final(self).configuration() == old(self).configuration(),
            final(self).history() == old(self).history(),
            final(self).environment() == old(self).environment(),
            final(self).wf() == old(self).wf(),
    {
        self.is_active = true;
        Ok(())
    }

    pub fn is_active(&self) -> (r: bool)
        ensures
            r == self.active(),
    {
        self.is_active
    }

    pub fn shutdown(&mut self) -> (r: Result<(), RangeDetectorError>)
        ensures
            r is Ok,
            !final(self).active(),
            final(self).configuration() == old(self).configuration(),
            final(self).history() == old(self).history(),
            final(self).environment() == old(self).environment(),
            final(self).wf() == old(self).wf(),
    {
        self.is_active = false;
        Ok(())
    }

    /// One measurement from an echo (its round-trip time in microseconds
    /// and signal strength, or the hardware's error), at the speed of sound
    /// and quality estimated for it: refused while inactive, checked against
    /// the configuration, and stored.
    pub fn measure_distance(
        &mut self,
        echo: Result<(u64, u32), RangeDetectorError>,
        speed_mm_per_s: u32,
        quality_score_permille: u32,
        now_ms: u64,
    ) -> (r: Result<RangeMeasurement, RangeDetectorError>)
        requires
            old(self).wf(),
        ensures
            final(self).wf(),
            !old(self).active() ==> r == Err::<RangeMeasurement, RangeDetectorError>(RangeDetectorError::HardwareInitFailed)
                && final(self).history() == old(self).history(),
            old(self).active() ==> match echo {
                Err(e) => r == Err::<RangeMeasurement, RangeDetectorError>(e) && final(self).history() == old(self).history(),
                Ok((t, s)) => {
                    let d = echo_distance_cm(t, speed_mm_per_s);
                    &&& s < old(self).configuration().signal_threshold_permille ==> r == Err::<
                        RangeMeasurement,
                        RangeDetectorError,
                    >(RangeDetectorError::LowSignalStrength) && final(self).history() == old(self).history()
                    &&& s >= old(self).configuration().signal_threshold_permille && !(old(self).configuration().min_range_cm <= d
                        <= old(self).configuration().max_range_cm) ==> (r matches Err(RangeDetectorError::InvalidMeasurement(
                        _,
                    ))) && final(self).history() == old(self).history()
                    &&& s >= old(self).configuration().signal_threshold_permille && old(self).configuration().min_range_cm <= d
                        <= old(self).configuration().max_range_cm ==> r == Ok::<RangeMeasurement, RangeDetectorError>(
                        RangeMeasurement {
                            distance_cm: d as u32,
                            signal_strength_permille: s,
                            timestamp_ms: now_ms,
                            quality_score_permille,
                            temperature_compensated: true,
                        },
                    ) && final(self).history() == (if old(self).history().len() >= MEASUREMENT_HISTORY_LIMIT {
                        old(self).history().drop_first()
                    } else {
                        old(self).history()
                    }).push(r->Ok_0)
                },
            },
            final(self).active() == old(self).active(),
            final(self).configuration() == old(self).configuration(),
            final(self).environment() == old(self).environment(),
    {
        if !self.is_active {
            return Err(RangeDetectorError::HardwareInitFailed);
        }
        let (echo_time_us, signal) = match echo {
            Err(e) => {
                return Err(e);
            },
            Ok(v) => v,
        };
        let d = distance_from_echo(echo_time_us, speed_mm_per_s);
        match validate_measurement(&self.config, d, signal) {
            Err(e) => {
                return Err(e);
            },
            Ok(()) => {},
        }
        let m = RangeMeasurement {
            distance_cm: d as u32,
            signal_strength_permille: signal,
            timestamp_ms: now_ms,
            quality_score_permille,
            temperature_compensated: true,
        };
        self.measurement_history.store_measurement(m);
        Ok(m)
    }

    /// Fast ranging: the results of ranging at 35, 40 and 45 kHz are
    /// combined with weights 0.3, 0.5 and 0.2 (see `combined_measurement`),
    /// refused while inactive, and a combined measurement is stored.
    pub fn measure_distance_fast(
        &mut self,
        results: &Vec<Result<RangeMeasurement, RangeDetectorError>>,
        now_ms: u64,
    ) -> (r: Result<RangeMeasurement, RangeDetectorError>)
        requires
            old(self).wf(),
            results@.len() == 3,
        ensures
            final(self).wf(),
            !old(self).active() ==> r == Err::<RangeMeasurement, RangeDetectorError>(RangeDetectorError::HardwareInitFailed)
                && final(self).history() == old(self).history(),
            old(self).active() ==> r == combined_measurement(results@, frequency_weights(), now_ms),
            old(self).active() && r is Err ==> final(self).history() == old(self).history(),
            old(self).active() && r is Ok ==> final(self).history() == (if old(self).history().len()
                >= MEASUREMENT_HISTORY_LIMIT {
                old(self).history().drop_first()
            } else {
                old(self).history()
            }).push(r->Ok_0),
            final(self).active() == old(self).active(),
            final(self).configuration() == old(self).configuration(),
            final(self).environment() == old(self).environment(),
    {
        if !self.is_active {
            return Err(RangeDetectorError::HardwareInitFailed);
        }
        let weights: Vec<u32> = vec![300u32, 500u32, 200u32];
        assert(weights@ =~= frequency_weights());
        let r = combine_frequency_measurements(results, &weights, now_ms);
        match r {
            Ok(m) => {
                self.measurement_history.store_measurement(m);
                Ok(m)
            },
            Err(e) => Err(e),
        }
    }

    pub fn update_environmental_conditions(&mut self, conditions: RangeEnvironmentalConditions)
        ensures
            final(self).environment() == conditions,
            final(self).active() == old(self).active(),
            final(self).configuration() == old(self).configuration(),
            final(self).history() == old(self).history(),
            final(self).wf() == old(self).wf(),
    {
        self.environmental_conditions = conditions;
    }

    pub fn get_environmental_conditions(&self) -> (r: RangeEnvironmentalConditions)
        ensures
            r == self.environment(),
    {
        self.environmental_conditions
    }

    pub fn get_measurement_history(&self) -> (r: Vec<RangeMeasurement>)
        ensures
            r@ == self.history(),
    {
        self.measurement_history.get_measurement_history()
    }

    /// Category of the newest measurement, if any.
    pub fn get_current_range_category(&self) -> (r: Option<RangeDetectorCategory>)
        ensures
            self.history().len() == 0 ==> r is None,
            self.history().len() > 0 ==> r == Some(category_of_distance(self.history().last().distance_cm)),
    {
        self.measurement_history.get_current_range_category()
    }
}

} // verus!

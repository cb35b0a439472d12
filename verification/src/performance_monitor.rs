//! Performance presets, the metric history, benchmark summaries, scoring and
//! the choice of a better configuration, in fixed units: milliseconds, bits
//! per second, microwatts, centimeters and parts per million.
//!
//! The measuring itself (timing transmissions on the hardware, sleeping
//! between samples) happens outside; this module turns what was measured into
//! metrics, scores and configurations.

use vstd::prelude::*;
use crate::laser::{LaserEngine, LaserError, ModulationScheme, PowerProfile, laser_error_text, safe_limit};
use crate::protocol::ProtocolState;
use crate::range_detector::{RangeDetectorCategory, optimal_modulation_for};
use crate::security::WeatherCondition;

verus! {

#[derive(Debug, Clone, PartialEq, Eq)]
pub enum PerformanceError {
    BenchmarkFailed(String),
    OptimizationFailed(String),
    InvalidMetrics,
    Timeout,
}

/// Ambient conditions of a measurement.
#[derive(Debug, Clone, Copy, PartialEq, Eq, Structural)]
pub struct EnvironmentalFactors {
    pub weather: WeatherCondition,
    /// Thousandths of a degree Celsius.
    pub temperature_mdeg_c: i32,
    /// Relative humidity, per-mille.
    pub humidity_permille: u32,
    /// Centimeters.
    pub visibility_cm: u32,
    /// Millimeters per second.
    pub wind_speed_mm_per_s: i32,
}

pub open spec fn default_environment() -> EnvironmentalFactors {
    EnvironmentalFactors {
        weather: WeatherCondition::Clear,
        temperature_mdeg_c: 20000,
        humidity_permille: 500,
        visibility_cm: 100000,
        wind_speed_mm_per_s: 2000,
    }
}

impl Default for EnvironmentalFactors {
    /// Clear weather, 20 °C, 50% humidity, 1 km visibility, 2 m/s wind.
    fn default() -> (r: Self)
        ensures
            r == default_environment(),
    {
        EnvironmentalFactors {
            weather: WeatherCondition::Clear,
            temperature_mdeg_c: 20000,
            humidity_permille: 500,
            visibility_cm: 100000,
            wind_speed_mm_per_s: 2000,
        }
    }
}

/// One set of performance measurements.
#[derive(Debug, Clone, Copy, PartialEq, Eq, Structural)]
pub struct PerformanceMetrics {
    /// Milliseconds since the epoch.
    pub timestamp: u64,
    pub handshake_latency_ms: u64,
    pub data_throughput_bps: u64,
    /// Parts per million.
    pub bit_error_rate_ppm: u64,
    /// Parts per million.
    pub packet_loss_rate_ppm: u64,
    /// Microwatts.
    pub power_consumption_uw: u64,
    /// Centimeters.
    pub range_cm: u64,
    /// Parts per million; negative when errors dominate.
    pub signal_strength_ppm: i64,
    pub modulation_scheme: ModulationScheme,
    /// Parts per million.
    pub ecc_strength_ppm: u64,
    pub environmental_conditions: EnvironmentalFactors,
}

/// Targets and switches of a performance configuration.
#[derive(Debug, Clone, Copy, PartialEq, Eq, Structural)]
pub struct PerformanceConfig {
    pub target_latency_ms: u64,
    pub target_throughput_bps: u64,
    /// Microwatts.
    pub max_power_uw: u32,
    /// Parts per million.
    pub min_reliability_ppm: u64,
    pub modulation_scheme: ModulationScheme,
    pub adaptive_ecc: bool,
    pub range_adaptation: bool,
    pub environmental_compensation: bool,
}

pub open spec fn config_of(
    latency_ms: u64,
    throughput_bps: u64,
    power_uw: u32,
    reliability_ppm: u64,
    modulation: ModulationScheme,
    adaptive_ecc: bool,
    range_adaptation: bool,
    environmental_compensation: bool,
) -> PerformanceConfig {
    PerformanceConfig {
        target_latency_ms: latency_ms,
        target_throughput_bps: throughput_bps,
        max_power_uw: power_uw,
        min_reliability_ppm: reliability_ppm,
        modulation_scheme: modulation,
        adaptive_ecc,
        range_adaptation,
        environmental_compensation,
    }
}

pub open spec fn default_config() -> PerformanceConfig {
    config_of(500, 1_000_000, 50_000, 950_000, ModulationScheme::Pwm, true, true, true)
}

impl Default for PerformanceConfig {
    /// 500 ms, 1 Mbit/s, 50 mW, 95% reliability, pulse-width modulation, all
    /// adaptations on.
    fn default() -> (r: Self)
        ensures
            r == default_config(),
    {
        PerformanceConfig {
            target_latency_ms: 500,
            target_throughput_bps: 1_000_000,
            max_power_uw: 50_000,
            min_reliability_ppm: 950_000,
            modulation_scheme: ModulationScheme::Pwm,
            adaptive_ecc: true,
            range_adaptation: true,
            environmental_compensation: true,
        }
    }
}

/// Configuration presets.
#[derive(Debug, Clone, Copy, PartialEq, Eq, Structural)]
pub enum PerformancePreset {
    /// Throughput and latency first.
    SpeedOptimized,
    /// Reliability first, latency acceptable.
    ReliabilityOptimized,
    /// Least power.
    PowerOptimized,
    /// A balance of all factors.
    Balanced,
    /// Greatest range.
    LongRangeOptimized,
    /// Shortest handshake.
    LowLatency,
    /// Greatest throughput.
    HighBandwidth,
    Custom(PerformanceConfig),
}

/// The configuration a preset stands for.
pub open spec fn preset_config(preset: PerformancePreset) -> PerformanceConfig {
    match preset {
        PerformancePreset::SpeedOptimized =>
            config_of(300, 2_000_000, 100_000, 850_000, ModulationScheme::Ook, false, true, false),
        PerformancePreset::ReliabilityOptimized =>
            config_of(600, 500_000, 50_000, 990_000, ModulationScheme::QrProjection, true, true, true),
        PerformancePreset::PowerOptimized =>
            config_of(800, 250_000, 10_000, 900_000, ModulationScheme::Ook, true, true, false),
        PerformancePreset::Balanced =>
            config_of(500, 1_000_000, 30_000, 950_000, ModulationScheme::Pwm, true, true, true),
        PerformancePreset::LongRangeOptimized =>
            config_of(700, 250_000, 200_000, 980_000, ModulationScheme::QrProjection, true, true, true),
        PerformancePreset::LowLatency =>
            config_of(200, 1_500_000, 80_000, 850_000, ModulationScheme::Ook, false, false, false),
        PerformancePreset::HighBandwidth =>
            config_of(400, 5_000_000, 120_000, 900_000, ModulationScheme::Ook, true, true, true),
        PerformancePreset::Custom(c) => c,
    }
}

/// The configuration of a preset.
pub fn config_for_preset(preset: PerformancePreset) -> (r: PerformanceConfig)
    ensures
        r == preset_config(preset),
{
    match preset {
        PerformancePreset::SpeedOptimized => PerformanceConfig {
            target_latency_ms: 300,
            target_throughput_bps: 2_000_000,
            max_power_uw: 100_000,
            min_reliability_ppm: 850_000,
            modulation_scheme: ModulationScheme::Ook,
            adaptive_ecc: false,
            range_adaptation: true,
            environmental_compensation: false,
        },
        PerformancePreset::ReliabilityOptimized => PerformanceConfig {
            target_latency_ms: 600,
            target_throughput_bps: 500_000,
            max_power_uw: 50_000,
            min_reliability_ppm: 990_000,
            modulation_scheme: ModulationScheme::QrProjection,
            adaptive_ecc: true,
            range_adaptation: true,
            environmental_compensation: true,
        },
        PerformancePreset::PowerOptimized => PerformanceConfig {
            target_latency_ms: 800,
            target_throughput_bps: 250_000,
            max_power_uw: 10_000,
            min_reliability_ppm: 900_000,
            modulation_scheme: ModulationScheme::Ook,
            adaptive_ecc: true,
            range_adaptation: true,
            environmental_compensation: false,
        },
        PerformancePreset::Balanced => PerformanceConfig {
            target_latency_ms: 500,
            target_throughput_bps: 1_000_000,
            max_power_uw: 30_000,
            min_reliability_ppm: 950_000,
            modulation_scheme: ModulationScheme::Pwm,
            adaptive_ecc: true,
            range_adaptation: true,
            environmental_compensation: true,
        },
        PerformancePreset::LongRangeOptimized => PerformanceConfig {
            target_latency_ms: 700,
            target_throughput_bps: 250_000,
            max_power_uw: 200_000,
            min_reliability_ppm: 980_000,
            modulation_scheme: ModulationScheme::QrProjection,
            adaptive_ecc: true,
            range_adaptation: true,
            environmental_compensation: true,
        },
        PerformancePreset::LowLatency => PerformanceConfig {
            target_latency_ms: 200,
            target_throughput_bps: 1_500_000,
            max_power_uw: 80_000,
            min_reliability_ppm: 850_000,
            modulation_scheme: ModulationScheme::Ook,
            adaptive_ecc: false,
            range_adaptation: false,
            environmental_compensation: false,
        },
        PerformancePreset::HighBandwidth => PerformanceConfig {
            target_latency_ms: 400,
            target_throughput_bps: 5_000_000,
            max_power_uw: 120_000,
            min_reliability_ppm: 900_000,
            modulation_scheme: ModulationScheme::Ook,
            adaptive_ecc: true,
            range_adaptation: true,
            environmental_compensation: true,
        },
        PerformancePreset::Custom(c) => c,
    }
}

/// The power profile a configuration asks of the laser: its power budget as
/// the maximum, 60% of it as the optimum and 20% as the minimum, its target
/// throughput (capped to 32 bits) as the data rate, a 15° beam and no extra
/// safety margin.
pub open spec fn config_power_profile(c: PerformanceConfig) -> PowerProfile {
    PowerProfile {
        max_power_uw: c.max_power_uw,
        optimal_power_uw: (c.max_power_uw * 6 / 10) as u32,
        min_power_uw: (c.max_power_uw * 2 / 10) as u32,
        data_rate_bps: if c.target_throughput_bps > u32::MAX { u32::MAX } else { c.target_throughput_bps as u32 },
        beam_angle_mdeg: 15000,
        safety_margin_permille: 1000,
    }
}

/// Whether a laser of this type accepts the configuration's profile.
pub open spec fn config_applies(c: PerformanceConfig, laser: LaserEngine) -> bool {
    config_power_profile(c).optimal_power_uw <= safe_limit(config_power_profile(c), laser.config().laser_type)
}

/// Applies a configuration to a laser: installs the configuration's power
/// profile, and fails with the laser's refusal.
pub fn apply_performance_config(config: &PerformanceConfig, laser: &mut LaserEngine) -> (r: Result<(), PerformanceError>)
    ensures
        r is Ok <==> config_applies(*config, *old(laser)),
        r is Ok ==> final(laser).profile() == config_power_profile(*config),
        r is Err ==> final(laser).profile() == old(laser).profile() && (r matches Err(
            PerformanceError::OptimizationFailed(m),
        ) && m@ == laser_error_text(LaserError::SafetyViolation)),
        final(laser).config() == old(laser).config(),
        final(laser).wf() == old(laser).wf(),
        final(laser).adaptive() == old(laser).adaptive(),
        final(laser).has_range_detector() == old(laser).has_range_detector(),
        final(laser).optical_ecc_enabled() == old(laser).optical_ecc_enabled(),
{
    let data_rate: u32 = if config.target_throughput_bps > u32::MAX as u64 {
        u32::MAX
    } else {
        config.target_throughput_bps as u32
    };
    let profile = PowerProfile {
        max_power_uw: config.max_power_uw,
        optimal_power_uw: ((config.max_power_uw as u64) * 6 / 10) as u32,
        min_power_uw: ((config.max_power_uw as u64) * 2 / 10) as u32,
        data_rate_bps: data_rate,
        beam_angle_mdeg: 15000,
        safety_margin_permille: 1000,
    };
    match laser.set_power_profile(profile) {
        Ok(()) => Ok(()),
        Err(e) => {
            let m = e.message();
            Err(PerformanceError::OptimizationFailed(m))
        },
    }
}

// ---------------------------------------------------------------------------
// Scoring
// ---------------------------------------------------------------------------

/// A quarter of the score, in thousandths of a point, for `x` against
/// `target`: full when the target is zero or reached, else proportional.
pub open spec fn capped_part(x: int, target: int) -> int {
    if target == 0 || x >= target {
        25_000
    } else {
        x * 25_000 / target
    }
}

/// The reliability quarter for a bit error rate in parts per million:
/// proportional to the share of bits that arrive intact.
pub open spec fn reliability_part(ber_ppm: int) -> int {
    if ber_ppm <= 1_000_000 {
        (1_000_000 - ber_ppm) / 40
    } else {
        -((ber_ppm - 1_000_000) / 40)
    }
}

/// Overall score in thousandths of a point, at most 100 points: a quarter
/// each for latency under target, throughput toward target, power under
/// budget and reliability.
pub open spec fn performance_score(m: PerformanceMetrics, c: PerformanceConfig) -> int {
    (25_000 - capped_part(m.handshake_latency_ms as int, c.target_latency_ms as int))
        + capped_part(m.data_throughput_bps as int, c.target_throughput_bps as int)
        + (25_000 - capped_part(m.power_consumption_uw as int, c.max_power_uw as int))
        + reliability_part(m.bit_error_rate_ppm as int)
}

fn capped_quarter(x: u64, target: u64) -> (r: u64)
    ensures
        r == capped_part(x as int, target as int),
        r <= 25_000,
{
    if target == 0 || x >= target {
        25_000
    } else {
        let p: u128 = (x as u128) * 25_000;
        let q: u128 = p / (target as u128);
        assert(q <= 25_000) by (nonlinear_arith)
            requires p == x * 25_000, q == p / (target as u128), x < target, target > 0;
        q as u64
    }
}

/// The overall score of measurements against a configuration.
pub fn calculate_performance_score(metrics: &PerformanceMetrics, config: &PerformanceConfig) -> (r: i64)
    ensures
        r == performance_score(*metrics, *config),
{
    let latency = 25_000 - capped_quarter(metrics.handshake_latency_ms, config.target_latency_ms);
    let throughput = capped_quarter(metrics.data_throughput_bps, config.target_throughput_bps);
    let power = 25_000 - capped_quarter(metrics.power_consumption_uw, config.max_power_uw as u64);
    let ber = metrics.bit_error_rate_ppm;
    let reliability: i64 = if ber <= 1_000_000 {
        ((1_000_000 - ber) / 40) as i64
    } else {
        -(((ber - 1_000_000) / 40) as i64)
    };
    (latency + throughput + power) as i64 + reliability
}

/// Absolute difference.
pub open spec fn distance(a: int, b: int) -> int {
    if a >= b { a - b } else { b - a }
}

/// Similarity of the conditions of two measurements, in parts per million:
/// falls with the range difference (to nothing at 100 m) and the temperature
/// difference (to nothing at 50 °C), halves for different weather, and is
/// never below 10%.
pub open spec fn condition_similarity(a: PerformanceMetrics, b: PerformanceMetrics) -> int {
    let rd = distance(a.range_cm as int, b.range_cm as int) * 100;
    let range_ppm = if rd < 1_000_000 { rd } else { 1_000_000 };
    let weather_ppm: int = if a.environmental_conditions.weather == b.environmental_conditions.weather {
        1_000_000
    } else {
        500_000
    };
    let td = distance(
        a.environmental_conditions.temperature_mdeg_c as int,
        b.environmental_conditions.temperature_mdeg_c as int,
    ) * 20;
    let temp_ppm = if td < 1_000_000 { td } else { 1_000_000 };
    let s = (1_000_000 - range_ppm) * weather_ppm / 1_000_000 * (1_000_000 - temp_ppm) / 1_000_000;
    if s > 100_000 { s } else { 100_000 }
}

/// Similarity of the conditions of two measurements.
pub fn calculate_condition_similarity(a: &PerformanceMetrics, b: &PerformanceMetrics) -> (r: u64)
    ensures
        r == condition_similarity(*a, *b),
        100_000 <= r <= 1_000_000,
{
    let rd: u128 = if a.range_cm >= b.range_cm {
        ((a.range_cm - b.range_cm) as u128) * 100
    } else {
        ((b.range_cm - a.range_cm) as u128) * 100
    };
    let range_ppm: u128 = if rd < 1_000_000 { rd } else { 1_000_000 };
    let weather_ppm: u128 = if a.environmental_conditions.weather == b.environmental_conditions.weather {
        1_000_000
    } else {
        500_000
    };
    let ta = a.environmental_conditions.temperature_mdeg_c as i64;
    let tb = b.environmental_conditions.temperature_mdeg_c as i64;
    let td: u128 = if ta >= tb { ((ta - tb) as u128) * 20 } else { ((tb - ta) as u128) * 20 };
    let temp_ppm: u128 = if td < 1_000_000 { td } else { 1_000_000 };
    let x: u128 = (1_000_000 - range_ppm) * weather_ppm;
    assert(x <= 1_000_000_000_000) by (nonlinear_arith)
        requires x == (1_000_000 - range_ppm) * weather_ppm, range_ppm <= 1_000_000, weather_ppm <= 1_000_000;
    let y: u128 = x / 1_000_000;
    assert(y <= 1_000_000) by (nonlinear_arith)
        requires y == x / 1_000_000, x <= 1_000_000_000_000;
    assert(y * (1_000_000 - temp_ppm) <= 1_000_000_000_000) by (nonlinear_arith)
        requires y <= 1_000_000, temp_ppm <= 1_000_000;
    let z: u128 = y * (1_000_000 - temp_ppm);
    let s: u128 = z / 1_000_000;
    if s > 100_000 { s as u64 } else { 100_000 }
}

/// Outcome of one benchmark run: the configuration it measured, what it
/// measured, its score in thousandths of a point, its reliability in parts
/// per million, and its efficiency in bits per second per milliwatt (none
/// when it drew no power).
#[derive(Debug, Clone, Copy, PartialEq, Eq, Structural)]
pub struct BenchmarkResult {
    pub config: PerformanceConfig,
    pub metrics: PerformanceMetrics,
    pub score: i64,
    pub reliability_score_ppm: i128,
    pub efficiency_bps_per_mw: Option<u128>,
}

/// Index and weighted score of the best of the first `n` benchmarks for
/// conditions `m`: the first to strictly beat all before it, starting from
/// the first benchmark and a weighted score of zero.
pub open spec fn best_benchmark(bs: Seq<BenchmarkResult>, m: PerformanceMetrics, n: nat) -> (int, int)
    decreases n,
{
    if n == 0 {
        (0, 0)
    } else {
        let prev = best_benchmark(bs, m, (n - 1) as nat);
        let w = bs[n - 1].score * condition_similarity(m, bs[n - 1].metrics);
        if w > prev.1 {
            ((n - 1) as int, w)
        } else {
            prev
        }
    }
}

proof fn lemma_best_in_range(bs: Seq<BenchmarkResult>, m: PerformanceMetrics, n: nat)
    requires
        n <= bs.len(),
        bs.len() > 0,
    ensures
        0 <= best_benchmark(bs, m, n).0 < bs.len(),
    decreases n,
{
    if n > 0 {
        lemma_best_in_range(bs, m, (n - 1) as nat);
    }
}

/// The configuration to use under conditions `m`: the default one without
/// benchmarks, else that of the benchmark whose score, weighted by the
/// similarity of its conditions, is best.
pub open spec fn optimal_config(bs: Seq<BenchmarkResult>, m: PerformanceMetrics) -> PerformanceConfig {
    if bs.len() == 0 {
        default_config()
    } else {
        bs[best_benchmark(bs, m, bs.len()).0].config
    }
}

fn find_optimal_config(benchmarks: &Vec<BenchmarkResult>, metrics: &PerformanceMetrics) -> (r: PerformanceConfig)
    ensures
        r == optimal_config(benchmarks@, *metrics),
{
    if benchmarks.len() == 0 {
        return PerformanceConfig::default();
    }
    let mut best: usize = 0;
    let mut best_score: i128 = 0;
    let mut i: usize = 0;
    while i < benchmarks.len()
        invariant
            0 <= i <= benchmarks.len(),
            benchmarks.len() > 0,
            best_benchmark(benchmarks@, *metrics, i as nat) == (best as int, best_score as int),
        decreases benchmarks.len() - i,
    {
        let sim = calculate_condition_similarity(metrics, &benchmarks[i].metrics);
        let sc: i64 = benchmarks[i].score;
        assert(-0x8000_0000_0000_0000 * 1_000_000 <= sc * sim <= 0x7fff_ffff_ffff_ffff * 1_000_000) by (nonlinear_arith)
            requires 100_000 <= sim <= 1_000_000, -0x8000_0000_0000_0000 <= sc <= 0x7fff_ffff_ffff_ffff;
        let w: i128 = (sc as i128) * (sim as i128);
        if w > best_score {
            best = i;
            best_score = w;
        }
        i = i + 1;
    }
    proof {
        lemma_best_in_range(benchmarks@, *metrics, benchmarks@.len());
    }
    benchmarks[best].config
}

// ---------------------------------------------------------------------------
// Benchmark summaries
// ---------------------------------------------------------------------------

/// One timed test transmission: delivered, with the throughput it reached
/// and the mean power drawn, or failed.
#[derive(Debug, Clone, Copy, PartialEq, Eq, Structural)]
pub enum TransmissionSample {
    Delivered { throughput_bps: u64, power_uw: u32 },
    Failed,
}

pub open spec fn delivered_count(s: Seq<TransmissionSample>) -> nat
    decreases s.len(),
{
    if s.len() == 0 {
        0
    } else {
        delivered_count(s.drop_last()) + if s.last() is Delivered { 1nat } else { 0nat }
    }
}

pub open spec fn throughput_total(s: Seq<TransmissionSample>) -> nat
    decreases s.len(),
{
    if s.len() == 0 {
        0
    } else {
        throughput_total(s.drop_last()) + match s.last() {
            TransmissionSample::Delivered { throughput_bps, .. } => throughput_bps as nat,
            TransmissionSample::Failed => 0nat,
        }
    }
}

pub open spec fn power_total(s: Seq<TransmissionSample>) -> nat
    decreases s.len(),
{
    if s.len() == 0 {
        0
    } else {
        power_total(s.drop_last()) + match s.last() {
            TransmissionSample::Delivered { power_uw, .. } => power_uw as nat,
            TransmissionSample::Failed => 0nat,
        }
    }
}

/// Mean over the delivered samples (zero without any).
pub open spec fn mean_over(total: nat, count: nat) -> int {
    if count > 0 { total as int / count as int } else { 0 }
}

/// Share of failed samples, in parts per million (zero without samples).
pub open spec fn error_rate_ppm(s: Seq<TransmissionSample>) -> int {
    if s.len() > 0 {
        (s.len() - delivered_count(s)) * 1_000_000 / s.len() as int
    } else {
        0
    }
}

proof fn lemma_totals_bounded(s: Seq<TransmissionSample>)
    ensures
        delivered_count(s) <= s.len(),
        throughput_total(s) <= delivered_count(s) * 0xffff_ffff_ffff_ffff,
        power_total(s) <= delivered_count(s) * 0xffff_ffff,
    decreases s.len(),
{
    if s.len() > 0 {
        lemma_totals_bounded(s.drop_last());
    }
}

/// Counts the delivered samples and sums their throughput and power.
fn sample_totals(samples: &Vec<TransmissionSample>) -> (r: (u64, u128, u128))
    requires
        samples.len() <= u64::MAX,
    ensures
        r.0 == delivered_count(samples@),
        r.1 == throughput_total(samples@),
        r.2 == power_total(samples@),
{
    let mut count: u64 = 0;
    let mut thr: u128 = 0;
    let mut pow: u128 = 0;
    let mut i: usize = 0;
    while i < samples.len()
        invariant
            i <= samples.len(),
            samples.len() <= u64::MAX,
            count == delivered_count(samples@.subrange(0, i as int)),
            thr == throughput_total(samples@.subrange(0, i as int)),
            pow == power_total(samples@.subrange(0, i as int)),
        decreases samples.len() - i,
    {
        proof {
            let next = samples@.subrange(0, i + 1);
            assert(next.drop_last() =~= samples@.subrange(0, i as int));
            lemma_totals_bounded(samples@.subrange(0, i as int));
        }
        assert(thr + 0xffff_ffff_ffff_ffffu128 <= u128::MAX) by (nonlinear_arith)
            requires thr <= count * 0xffff_ffff_ffff_ffff, count <= i, i < 0xffff_ffff_ffff_ffff;
        assert(pow + 0xffff_ffffu128 <= u128::MAX) by (nonlinear_arith)
            requires pow <= count * 0xffff_ffff, count <= i, i < 0xffff_ffff_ffff_ffff;
        match samples[i] {
            TransmissionSample::Delivered { throughput_bps, power_uw } => {
                count = count + 1;
                thr = thr + throughput_bps as u128;
                pow = pow + power_uw as u128;
            },
            TransmissionSample::Failed => {},
        }
        i = i + 1;
    }
    assert(samples@.subrange(0, samples.len() as int) =~= samples@);
    (count, thr, pow)
}

/// Mean throughput, mean power and failure rate of the samples.
fn sample_summary(samples: &Vec<TransmissionSample>) -> (r: (u64, u32, u64))
    requires
        samples.len() <= u64::MAX,
    ensures
        r.0 == mean_over(throughput_total(samples@), delivered_count(samples@)),
        r.1 == mean_over(power_total(samples@), delivered_count(samples@)),
        r.2 == error_rate_ppm(samples@),
        r.2 <= 1_000_000,
{
    let (count, thr, pow) = sample_totals(samples);
    proof {
        lemma_totals_bounded(samples@);
    }
    let n = samples.len() as u64;
    let avg_thr: u64 = if count > 0 {
        assert(thr / (count as u128) <= 0xffff_ffff_ffff_ffff) by (nonlinear_arith)
            requires thr <= count * 0xffff_ffff_ffff_ffff, count > 0;
        (thr / (count as u128)) as u64
    } else {
        0
    };
    let avg_pow: u32 = if count > 0 {
        assert(pow / (count as u128) <= 0xffff_ffff) by (nonlinear_arith)
            requires pow <= count * 0xffff_ffff, count > 0;
        (pow / (count as u128)) as u32
    } else {
        0
    };
    let err: u64 = if n > 0 {
        let failed: u128 = (n - count) as u128;
        let scaled: u128 = failed * 1_000_000;
        let q: u128 = scaled / (n as u128);
        assert(q <= 1_000_000) by (nonlinear_arith)
            requires scaled == failed * 1_000_000, q == scaled / (n as u128), failed <= n, n > 0;
        q as u64
    } else {
        0
    };
    (avg_thr, avg_pow, err)
}

/// Throughput a range category is expected to reach, bits per second.
pub open spec fn expected_throughput_bps(c: RangeDetectorCategory) -> u64 {
    match c {
        RangeDetectorCategory::Close => 2_000_000,
        RangeDetectorCategory::Medium => 1_000_000,
        RangeDetectorCategory::Far => 500_000,
        RangeDetectorCategory::Extreme => 250_000,
    }
}

/// Power budget of a range category, microwatts.
pub open spec fn category_max_power_uw(c: RangeDetectorCategory) -> u32 {
    match c {
        RangeDetectorCategory::Close => 20_000,
        RangeDetectorCategory::Medium => 40_000,
        RangeDetectorCategory::Far => 70_000,
        RangeDetectorCategory::Extreme => 100_000,
    }
}

/// Typical distance of a range category, centimeters.
pub open spec fn expected_range_cm(c: RangeDetectorCategory) -> u64 {
    match c {
        RangeDetectorCategory::Close => 7500,
        RangeDetectorCategory::Medium => 12500,
        RangeDetectorCategory::Far => 15000,
        RangeDetectorCategory::Extreme => 19000,
    }
}

/// Handshake latency expected in a range category, milliseconds.
pub open spec fn expected_latency_ms(c: RangeDetectorCategory) -> u64 {
    match c {
        RangeDetectorCategory::Close => 300,
        RangeDetectorCategory::Medium => 400,
        RangeDetectorCategory::Far => 450,
        RangeDetectorCategory::Extreme => 480,
    }
}

/// Size of the test packet for a range category, bytes.
pub open spec fn test_packet_size(c: RangeDetectorCategory) -> usize {
    match c {
        RangeDetectorCategory::Close => 2048,
        RangeDetectorCategory::Medium => 1024,
        RangeDetectorCategory::Far => 512,
        RangeDetectorCategory::Extreme => 256,
    }
}

impl RangeDetectorCategory {
    pub fn expected_throughput(&self) -> (r: u64)
        ensures
            r == expected_throughput_bps(*self),
    {
        match self {
            RangeDetectorCategory::Close => 2_000_000,
            RangeDetectorCategory::Medium => 1_000_000,
            RangeDetectorCategory::Far => 500_000,
            RangeDetectorCategory::Extreme => 250_000,
        }
    }

    pub fn max_power(&self) -> (r: u32)
        ensures
            r == category_max_power_uw(*self),
    {
        match self {
            RangeDetectorCategory::Close => 20_000,
            RangeDetectorCategory::Medium => 40_000,
            RangeDetectorCategory::Far => 70_000,
            RangeDetectorCategory::Extreme => 100_000,
        }
    }

    pub fn expected_range(&self) -> (r: u64)
        ensures
            r == expected_range_cm(*self),
    {
        match self {
            RangeDetectorCategory::Close => 7500,
            RangeDetectorCategory::Medium => 12500,
            RangeDetectorCategory::Far => 15000,
            RangeDetectorCategory::Extreme => 19000,
        }
    }

    pub fn test_packet_size(&self) -> (r: usize)
        ensures
            r == test_packet_size(*self),
    {
        match self {
            RangeDetectorCategory::Close => 2048,
            RangeDetectorCategory::Medium => 1024,
            RangeDetectorCategory::Far => 512,
            RangeDetectorCategory::Extreme => 256,
        }
    }
}

/// Efficiency in bits per second per milliwatt; none without power.
pub open spec fn efficiency(throughput_bps: int, power_uw: int) -> Option<u128> {
    if power_uw == 0 {
        None
    } else {
        Some((throughput_bps * 1000 / power_uw) as u128)
    }
}

fn efficiency_of(throughput_bps: u64, power_uw: u64) -> (r: Option<u128>)
    ensures
        r == efficiency(throughput_bps as int, power_uw as int),
{
    if power_uw == 0 {
        None
    } else {
        Some((throughput_bps as u128) * 1000 / (power_uw as u128))
    }
}

/// What a modulation benchmark measured: 450 ms handshakes, the mean
/// throughput and power of the delivered samples, the failure rate as bit
/// error rate and twice that as packet loss, 100 m range, signal strength
/// 80% less twice the failure rate, half-strength error correction.
pub open spec fn modulation_metrics(modulation: ModulationScheme, s: Seq<TransmissionSample>, now_ms: u64) -> PerformanceMetrics {
    let err = error_rate_ppm(s);
    PerformanceMetrics {
        timestamp: now_ms,
        handshake_latency_ms: 450,
        data_throughput_bps: mean_over(throughput_total(s), delivered_count(s)) as u64,
        bit_error_rate_ppm: err as u64,
        packet_loss_rate_ppm: (2 * err) as u64,
        power_consumption_uw: mean_over(power_total(s), delivered_count(s)) as u64,
        range_cm: 10000,
        signal_strength_ppm: (800_000 - 2 * err) as i64,
        modulation_scheme: modulation,
        ecc_strength_ppm: 500_000,
        environmental_conditions: default_environment(),
    }
}

/// The configuration a modulation benchmark found: 500 ms, the measured mean
/// throughput and power, the measured reliability, all adaptations on.
pub open spec fn modulation_config(modulation: ModulationScheme, s: Seq<TransmissionSample>) -> PerformanceConfig {
    config_of(
        500,
        mean_over(throughput_total(s), delivered_count(s)) as u64,
        mean_over(power_total(s), delivered_count(s)) as u32,
        (1_000_000 - error_rate_ppm(s)) as u64,
        modulation,
        true,
        true,
        true,
    )
}

/// Summarizes the timed test transmissions of a modulation scheme.
pub fn summarize_modulation_benchmark(
    modulation: ModulationScheme,
    samples: &Vec<TransmissionSample>,
    now_ms: u64,
) -> (r: BenchmarkResult)
    requires
        samples.len() <= u64::MAX,
    ensures
        r.config == modulation_config(modulation, samples@),
        r.metrics == modulation_metrics(modulation, samples@, now_ms),
        r.score == performance_score(r.metrics, r.config),
        r.reliability_score_ppm == 1_000_000 - r.metrics.bit_error_rate_ppm,
        r.efficiency_bps_per_mw == efficiency(
            r.metrics.data_throughput_bps as int,
            r.metrics.power_consumption_uw as int,
        ),
{
    let (thr, pow, err) = sample_summary(samples);
    let config = PerformanceConfig {
        target_latency_ms: 500,
        target_throughput_bps: thr,
        max_power_uw: pow,
        min_reliability_ppm: 1_000_000 - err,
        modulation_scheme: modulation,
        adaptive_ecc: true,
        range_adaptation: true,
        environmental_compensation: true,
    };
    let metrics = PerformanceMetrics {
        timestamp: now_ms,
        handshake_latency_ms: 450,
        data_throughput_bps: thr,
        bit_error_rate_ppm: err,
        packet_loss_rate_ppm: 2 * err,
        power_consumption_uw: pow as u64,
        range_cm: 10000,
        signal_strength_ppm: 800_000 - 2 * (err as i64),
        modulation_scheme: modulation,
        ecc_strength_ppm: 500_000,
        environmental_conditions: EnvironmentalFactors::default(),
    };
    let score = calculate_performance_score(&metrics, &config);
    let eff = efficiency_of(thr, pow as u64);
    BenchmarkResult {
        config,
        metrics,
        score,
        reliability_score_ppm: 1_000_000 - err as i128,
        efficiency_bps_per_mw: eff,
    }
}

/// What a range benchmark measured: the category's expected latency, the mean
/// throughput but at least a tenth of what the category expects, the mean
/// power but at least half the category's budget, the measured range (else
/// the category's typical one), signal strength falling with twice the
/// failure rate down to 10%, and error correction strengthening with the
/// failure rate from 60%.
pub open spec fn range_metrics(
    category: RangeDetectorCategory,
    s: Seq<TransmissionSample>,
    measured_range_cm: Option<u64>,
    now_ms: u64,
) -> PerformanceMetrics {
    let err = error_rate_ppm(s);
    let thr = mean_over(throughput_total(s), delivered_count(s));
    let min_thr = expected_throughput_bps(category) / 10;
    let pow = mean_over(power_total(s), delivered_count(s));
    let min_pow = category_max_power_uw(category) / 2;
    let signal = 1_000_000 - 2 * err;
    PerformanceMetrics {
        timestamp: now_ms,
        handshake_latency_ms: expected_latency_ms(category),
        data_throughput_bps: (if thr > min_thr { thr } else { min_thr as int }) as u64,
        bit_error_rate_ppm: err as u64,
        packet_loss_rate_ppm: (2 * err) as u64,
        power_consumption_uw: (if pow > min_pow { pow } else { min_pow as int }) as u64,
        range_cm: match measured_range_cm {
            Some(r) => r,
            None => expected_range_cm(category),
        },
        signal_strength_ppm: (if signal > 100_000 { signal } else { 100_000 }) as i64,
        modulation_scheme: optimal_modulation_for(category),
        ecc_strength_ppm: (600_000 + err * 4 / 10) as u64,
        environmental_conditions: default_environment(),
    }
}

/// Summarizes the timed test transmissions of a range category.
pub fn summarize_range_benchmark(
    category: RangeDetectorCategory,
    samples: &Vec<TransmissionSample>,
    measured_range_cm: Option<u64>,
    now_ms: u64,
) -> (r: PerformanceMetrics)
    requires
        samples.len() <= u64::MAX,
    ensures
        r == range_metrics(category, samples@, measured_range_cm, now_ms),
{
    let (thr, pow, err) = sample_summary(samples);
    let min_thr = category.expected_throughput() / 10;
    let min_pow = category.max_power() / 2;
    let signal: i64 = 1_000_000 - 2 * (err as i64);
    let latency: u64 = match category {
        RangeDetectorCategory::Close => 300,
        RangeDetectorCategory::Medium => 400,
        RangeDetectorCategory::Far => 450,
        RangeDetectorCategory::Extreme => 480,
    };
    let range_cm = match measured_range_cm {
        Some(r) => r,
        None => category.expected_range(),
    };
    PerformanceMetrics {
        timestamp: now_ms,
        handshake_latency_ms: latency,
        data_throughput_bps: if thr > min_thr { thr } else { min_thr },
        bit_error_rate_ppm: err,
        packet_loss_rate_ppm: 2 * err,
        power_consumption_uw: if pow > min_pow { pow as u64 } else { min_pow as u64 },
        range_cm,
        signal_strength_ppm: if signal > 100_000 { signal } else { 100_000 },
        modulation_scheme: category.optimal_modulation(),
        ecc_strength_ppm: 600_000 + err * 4 / 10,
        environmental_conditions: EnvironmentalFactors::default(),
    }
}

/// The configuration a range category calls for: 500 ms, the category's
/// expected throughput and power budget, 90% reliability, the category's
/// modulation, all adaptations on.
pub open spec fn range_config(category: RangeDetectorCategory) -> PerformanceConfig {
    config_of(
        500,
        expected_throughput_bps(category),
        category_max_power_uw(category),
        900_000,
        optimal_modulation_for(category),
        true,
        true,
        true,
    )
}

/// Scores what a range benchmark measured against the category's
/// configuration.
pub fn benchmark_range_category(category: RangeDetectorCategory, metrics: &PerformanceMetrics) -> (r: BenchmarkResult)
    ensures
        r.config == range_config(category),
        r.metrics == *metrics,
        r.score == performance_score(*metrics, range_config(category)),
        r.reliability_score_ppm == 1_000_000 - metrics.bit_error_rate_ppm,
        r.efficiency_bps_per_mw == efficiency(
            metrics.data_throughput_bps as int,
            metrics.power_consumption_uw as int,
        ),
{
    let config = PerformanceConfig {
        target_latency_ms: 500,
        target_throughput_bps: category.expected_throughput(),
        max_power_uw: category.max_power(),
        min_reliability_ppm: 900_000,
        modulation_scheme: category.optimal_modulation(),
        adaptive_ecc: true,
        range_adaptation: true,
        environmental_compensation: true,
    };
    let score = calculate_performance_score(metrics, &config);
    let reliability: i128 = 1_000_000 - metrics.bit_error_rate_ppm as i128;
    BenchmarkResult {
        config,
        metrics: *metrics,
        score,
        reliability_score_ppm: reliability,
        efficiency_bps_per_mw: efficiency_of(metrics.data_throughput_bps, metrics.power_consumption_uw),
    }
}

// ---------------------------------------------------------------------------
// Live metrics
// ---------------------------------------------------------------------------

/// What the laser reports for a metrics sample.
#[derive(Debug, Clone, Copy, PartialEq, Eq, Structural)]
pub struct LaserSnapshot {
    /// Microwatts.
    pub power_consumption_uw: u64,
    /// Signal strength of the alignment, per-mille.
    pub signal_strength_permille: u32,
    /// The modulation it would choose now.
    pub modulation: ModulationScheme,
    /// Data rate of its power profile.
    pub data_rate_bps: u32,
    /// Number of failures its diagnostics detected.
    pub failure_count: u32,
}

/// What the range detector reports for a metrics sample: a distance when
/// the measurement succeeded, and the ambient conditions.
#[derive(Debug, Clone, Copy, PartialEq, Eq, Structural)]
pub struct RangeSnapshot {
    pub distance_cm: Option<u32>,
    pub conditions: crate::laser::RangeEnvironmentalConditions,
}

/// Estimated handshake latency: 350 ms when the protocol is connected (which
/// suggests a recent handshake), 550 ms when it is not, 450 ms without a
/// protocol engine.
pub open spec fn handshake_latency_estimate(state: Option<ProtocolState>) -> u64 {
    match state {
        None => 450,
        Some(ProtocolState::Connected) => 350,
        Some(ProtocolState::SecureChannelEstablished) => 350,
        Some(ProtocolState::LongRangeConnected) => 350,
        Some(ProtocolState::LongRangeSecureChannel) => 350,
        Some(_) => 550,
    }
}

fn measure_handshake_latency(state: Option<&ProtocolState>) -> (r: u64)
    ensures
        r == handshake_latency_estimate(match state {
            None => None,
            Some(s) => Some(*s),
        }),
{
    match state {
        None => 450,
        Some(ProtocolState::Connected) => 350,
        Some(ProtocolState::SecureChannelEstablished) => 350,
        Some(ProtocolState::LongRangeConnected) => 350,
        Some(ProtocolState::LongRangeSecureChannel) => 350,
        Some(_) => 550,
    }
}

/// A live metrics sample from what the engines report. Without a laser,
/// throughput, power, signal and error rates are zero and the modulation is
/// on-off keying; with one, they are its readings, a thousandth of bit
/// errors per detected failure, and 0.1% packet loss (1% with failures).
/// The handshake latency is estimated only with an ultrasonic engine; the
/// range and the ambient conditions come from the range detector when there
/// is one (the weather is then taken as clear).
pub open spec fn assembled_metrics(
    now_ms: u64,
    laser: Option<LaserSnapshot>,
    ultrasonic_present: bool,
    protocol_state: Option<ProtocolState>,
    range: Option<RangeSnapshot>,
) -> PerformanceMetrics {
    PerformanceMetrics {
        timestamp: now_ms,
        handshake_latency_ms: if ultrasonic_present { handshake_latency_estimate(protocol_state) } else { 0 },
        data_throughput_bps: match laser { Some(l) => l.data_rate_bps as u64, None => 0 },
        bit_error_rate_ppm: match laser { Some(l) => (l.failure_count * 1000) as u64, None => 0 },
        packet_loss_rate_ppm: match laser {
            Some(l) => if l.failure_count == 0 { 1000 } else { 10_000 },
            None => 0,
        },
        power_consumption_uw: match laser { Some(l) => l.power_consumption_uw, None => 0 },
        range_cm: match range {
            Some(r) => match r.distance_cm { Some(d) => d as u64, None => 0 },
            None => 0,
        },
        signal_strength_ppm: match laser { Some(l) => (l.signal_strength_permille * 1000) as i64, None => 0 },
        modulation_scheme: match laser { Some(l) => l.modulation, None => ModulationScheme::Ook },
        ecc_strength_ppm: 0,
        environmental_conditions: match range {
            Some(r) => EnvironmentalFactors {
                weather: WeatherCondition::Clear,
                temperature_mdeg_c: r.conditions.temperature_mdeg_c,
                humidity_permille: r.conditions.humidity_permille,
                visibility_cm: r.conditions.visibility_cm,
                wind_speed_mm_per_s: r.conditions.wind_speed_mm_per_s,
            },
            None => default_environment(),
        },
    }
}

/// Assembles a live metrics sample.
pub fn collect_current_metrics(
    now_ms: u64,
    laser: Option<LaserSnapshot>,
    ultrasonic_present: bool,
    protocol_state: Option<&ProtocolState>,
    range: Option<RangeSnapshot>,
) -> (r: PerformanceMetrics)
    ensures
        r == assembled_metrics(now_ms, laser, ultrasonic_present, match protocol_state {
            None => None,
            Some(s) => Some(*s),
        }, range),
{
    let mut metrics = PerformanceMetrics {
        timestamp: now_ms,
        handshake_latency_ms: 0,
        data_throughput_bps: 0,
        bit_error_rate_ppm: 0,
        packet_loss_rate_ppm: 0,
        power_consumption_uw: 0,
        range_cm: 0,
        signal_strength_ppm: 0,
        modulation_scheme: ModulationScheme::Ook,
        ecc_strength_ppm: 0,
        environmental_conditions: EnvironmentalFactors::default(),
    };
    match laser {
        Some(l) => {
            metrics.power_consumption_uw = l.power_consumption_uw;
            metrics.signal_strength_ppm = (l.signal_strength_permille as i64) * 1000;
            metrics.modulation_scheme = l.modulation;
            metrics.data_throughput_bps = l.data_rate_bps as u64;
            metrics.bit_error_rate_ppm = (l.failure_count as u64) * 1000;
            metrics.packet_loss_rate_ppm = if l.failure_count == 0 { 1000 } else { 10_000 };
        },
        None => {},
    }
    if ultrasonic_present {
        metrics.handshake_latency_ms = measure_handshake_latency(protocol_state);
    }
    match range {
        Some(r) => {
            match r.distance_cm {
                Some(d) => {
                    metrics.range_cm = d as u64;
                },
                None => {},
            }
            metrics.environmental_conditions = EnvironmentalFactors {
                weather: WeatherCondition::Clear,
                temperature_mdeg_c: r.conditions.temperature_mdeg_c,
                humidity_permille: r.conditions.humidity_permille,
                visibility_cm: r.conditions.visibility_cm,
                wind_speed_mm_per_s: r.conditions.wind_speed_mm_per_s,
            };
        },
        None => {},
    }
    metrics
}

// ---------------------------------------------------------------------------
// The monitor
// ---------------------------------------------------------------------------

/// History after recording `m`: the oldest entry leaves once the history
/// is at its limit.
pub open spec fn history_after_record(h: Seq<PerformanceMetrics>, max: nat, m: PerformanceMetrics) -> Seq<PerformanceMetrics> {
    if h.len() >= max && h.len() > 0 {
        h.drop_first().push(m)
    } else {
        h.push(m)
    }
}

/// The newest `count` entries of a history, newest first.
pub open spec fn newest_first(h: Seq<PerformanceMetrics>, count: nat) -> Seq<PerformanceMetrics> {
    let n = if count < h.len() { count } else { h.len() };
    Seq::new(n, |i: int| h[h.len() - 1 - i])
}

pub open spec fn recommendation_texts(m: PerformanceMetrics) -> Seq<Seq<char>> {
    let a: Seq<Seq<char>> = if m.handshake_latency_ms > 500 {
        seq!["Handshake latency exceeds 500ms target. Consider speed optimization preset."@]
    } else {
        seq![]
    };
    let b: Seq<Seq<char>> = if m.data_throughput_bps < 1_000_000 {
        seq!["Data throughput below 1Mbps target. Consider range optimization."@]
    } else {
        seq![]
    };
    let c: Seq<Seq<char>> = if m.power_consumption_uw > 50_000 {
        seq!["High power consumption detected. Consider power optimization preset."@]
    } else {
        seq![]
    };
    let d: Seq<Seq<char>> = if m.bit_error_rate_ppm > 10_000 {
        seq!["High bit error rate. Enable adaptive ECC or switch to more robust modulation."@]
    } else {
        seq![]
    };
    a + b + c + d
}

/// Recommendations for measurements: one for handshakes over 500 ms,
/// throughput under 1 Mbit/s, power over 50 mW and a bit error rate over 1%,
/// in that order.
pub fn recommendations_for(m: &PerformanceMetrics) -> (r: Vec<String>)
    ensures
        r@.map_values(|x: String| x@) == recommendation_texts(*m),
{
    let mut out: Vec<String> = Vec::new();
    let ghost mut expected: Seq<Seq<char>> = seq![];
    if m.handshake_latency_ms > 500 {
        out.push("Handshake latency exceeds 500ms target. Consider speed optimization preset.".to_owned());
        proof {
            expected = expected.push("Handshake latency exceeds 500ms target. Consider speed optimization preset."@);
        }
    }
    assert(out@.map_values(|x: String| x@) =~= expected);
    if m.data_throughput_bps < 1_000_000 {
        out.push("Data throughput below 1Mbps target. Consider range optimization.".to_owned());
        proof {
            expected = expected.push("Data throughput below 1Mbps target. Consider range optimization."@);
        }
    }
    assert(out@.map_values(|x: String| x@) =~= expected);
    if m.power_consumption_uw > 50_000 {
        out.push("High power consumption detected. Consider power optimization preset.".to_owned());
        proof {
            expected = expected.push("High power consumption detected. Consider power optimization preset."@);
        }
    }
    assert(out@.map_values(|x: String| x@) =~= expected);
    if m.bit_error_rate_ppm > 10_000 {
        out.push("High bit error rate. Enable adaptive ECC or switch to more robust modulation.".to_owned());
        proof {
            expected = expected.push("High bit error rate. Enable adaptive ECC or switch to more robust modulation."@);
        }
    }
    assert(out@.map_values(|x: String| x@) =~= expected);
    assert(expected =~= recommendation_texts(*m));
    out
}

/// Metric history, benchmark results and the active configuration, with
/// the laser the configuration is applied to.
#[derive(Debug)]
pub struct PerformanceMonitor {
    metrics_history: Vec<PerformanceMetrics>,
    benchmark_results: Vec<BenchmarkResult>,
    current_config: PerformanceConfig,
    optimization_active: bool,
    laser_engine: Option<LaserEngine>,
    max_history_size: usize,
}

impl PerformanceMonitor {
    /// Oldest first.
    pub closed spec fn history(&self) -> Seq<PerformanceMetrics> {
        self.metrics_history@
    }

    pub closed spec fn benchmarks(&self) -> Seq<BenchmarkResult> {
        self.benchmark_results@
    }

    pub closed spec fn config(&self) -> PerformanceConfig {
        self.current_config
    }

    pub closed spec fn active(&self) -> bool {
        self.optimization_active
    }

    pub closed spec fn laser(&self) -> Option<LaserEngine> {
        self.laser_engine
    }

    pub closed spec fn max_history(&self) -> nat {
        self.max_history_size as nat
    }

    /// An idle monitor with the default configuration and no engines.
    pub fn new(max_history_size: usize) -> (r: Self)
        ensures
            r.history() == Seq::<PerformanceMetrics>::empty(),
            r.benchmarks() == Seq::<BenchmarkResult>::empty(),
            r.config() == default_config(),
            !r.active(),
            r.laser() is None,
            r.max_history() == max_history_size,
    {
        PerformanceMonitor {
            metrics_history: Vec::new(),
            benchmark_results: Vec::new(),
            current_config: PerformanceConfig::default(),
            optimization_active: false,
            laser_engine: None,
            max_history_size,
        }
    }

    /// The monitor with the laser that configurations are applied to.
    pub fn with_engines(self, laser: Option<LaserEngine>) -> (r: Self)
        ensures
            r.laser() == laser,
            r.history() == self.history(),
            r.benchmarks() == self.benchmarks(),
            r.config() == self.config(),
            r.active() == self.active(),
            r.max_history() == self.max_history(),
    {
        PerformanceMonitor { laser_engine: laser, ..self }
    }

    pub fn laser_engine(&self) -> (r: Option<&LaserEngine>)
        ensures
            r == match self.laser() {
                None => None,
                Some(l) => Some(&l),
            },
    {
        match &self.laser_engine {
            None => None,
            Some(l) => Some(l),
        }
    }

    /// Marks monitoring as running; the sampling itself runs outside.
    pub fn start_monitoring(&mut self) -> (r: Result<(), PerformanceError>)
        ensures
            r is Ok,
            final(self).active(),
            final(self).history() == old(self).history(),
            final(self).benchmarks() == old(self).benchmarks(),
            final(self).config() == old(self).config(),
            final(self).laser() == old(self).laser(),
            final(self).max_history() == old(self).max_history(),
    {
        self.optimization_active = true;
        Ok(())
    }

    pub fn stop_monitoring(&mut self)
        ensures
            !final(self).active(),
            final(self).history() == old(self).history(),
            final(self).benchmarks() == old(self).benchmarks(),
            final(self).config() == old(self).config(),
            final(self).laser() == old(self).laser(),
            final(self).max_history() == old(self).max_history(),
    {
        self.optimization_active = false;
    }

    pub fn is_optimization_active(&self) -> (r: bool)
        ensures
            r == self.active(),
    {
        self.optimization_active
    }

    pub fn get_current_config(&self) -> (r: PerformanceConfig)
        ensures
            r == self.config(),
    {
        self.current_config
    }

    /// Appends a sample, dropping the oldest once the history is full.
    pub fn record_metrics(&mut self, metrics: PerformanceMetrics)
        ensures
            final(self).history() == history_after_record(old(self).history(), old(self).max_history(), metrics),
            final(self).benchmarks() == old(self).benchmarks(),
            final(self).config() == old(self).config(),
            final(self).active() == old(self).active(),
            final(self).laser() == old(self).laser(),
            final(self).max_history() == old(self).max_history(),
    {
        if self.metrics_history.len() >= self.max_history_size && self.metrics_history.len() > 0 {
            self.metrics_history.remove(0);
        }
        self.metrics_history.push(metrics);
        proof {
            let h = old(self).history();
            if h.len() >= old(self).max_history() && h.len() > 0 {
                assert(self.metrics_history@ =~= h.drop_first().push(metrics));
            }
        }
    }

    /// The newest sample.
    pub fn get_current_metrics(&self) -> (r: Option<PerformanceMetrics>)
        ensures
            r == (if self.history().len() == 0 { None } else { Some(self.history().last()) }),
    {
        if self.metrics_history.len() == 0 {
            None
        } else {
            Some(self.metrics_history[self.metrics_history.len() - 1])
        }
    }

    /// The newest `count` samples, newest first.
    pub fn get_metrics_history(&self, count: usize) -> (r: Vec<PerformanceMetrics>)
        ensures
            r@ == newest_first(self.history(), count as nat),
    {
        let len = self.metrics_history.len();
        let n = if count < len { count } else { len };
        let mut out: Vec<PerformanceMetrics> = Vec::new();
        let mut i: usize = 0;
        while i < n
            invariant
                n <= len,
                len == self.metrics_history.len(),
                i <= n,
                out@.len() == i,
                forall|j: int| 0 <= j < i ==> out@[j] == self.metrics_history@[len - 1 - j],
            decreases n - i,
        {
            out.push(self.metrics_history[len - 1 - i]);
            i = i + 1;
        }
        assert(out@ =~= newest_first(self.history(), count as nat));
        out
    }

    /// Stores the results of a benchmark run after those already kept.
    pub fn record_benchmarks(&mut self, results: Vec<BenchmarkResult>)
        ensures
            final(self).benchmarks() == old(self).benchmarks() + results@,
            final(self).history() == old(self).history(),
            final(self).config() == old(self).config(),
            final(self).active() == old(self).active(),
            final(self).laser() == old(self).laser(),
            final(self).max_history() == old(self).max_history(),
    {
        let mut results = results;
        self.benchmark_results.append(&mut results);
    }

    pub fn get_benchmark_results(&self) -> (r: Vec<BenchmarkResult>)
        ensures
            r@ == self.benchmarks(),
    {
        let mut out: Vec<BenchmarkResult> = Vec::new();
        let mut i: usize = 0;
        while i < self.benchmark_results.len()
            invariant
                i <= self.benchmark_results.len(),
                out@ == self.benchmark_results@.subrange(0, i as int),
            decreases self.benchmark_results.len() - i,
        {
            out.push(self.benchmark_results[i]);
            i = i + 1;
            assert(out@ =~= self.benchmark_results@.subrange(0, i as int));
        }
        assert(out@ =~= self.benchmark_results@);
        out
    }

    fn apply_to_laser(&mut self, config: &PerformanceConfig) -> (r: Result<(), PerformanceError>)
        ensures
            match old(self).laser() {
                None => r is Ok && final(self).laser() is None,
                Some(l) => {
                    &&& (r is Ok <==> config_applies(*config, l))
                    &&& final(self).laser() matches Some(nl) && {
                        &&& (r is Ok ==> nl.profile() == config_power_profile(*config))
                        &&& (r is Err ==> nl.profile() == l.profile())
                        &&& nl.config() == l.config()
                        &&& nl.wf() == l.wf()
                        &&& nl.adaptive() == l.adaptive()
                        &&& nl.optical_ecc_enabled() == l.optical_ecc_enabled()
                    }
                },
            },
            r matches Err(e) ==> e matches PerformanceError::OptimizationFailed(m) && m@ == laser_error_text(
                LaserError::SafetyViolation,
            ),
            final(self).history() == old(self).history(),
            final(self).benchmarks() == old(self).benchmarks(),
            final(self).config() == old(self).config(),
            final(self).active() == old(self).active(),
            final(self).max_history() == old(self).max_history(),
    {
        let taken = self.laser_engine.take();
        match taken {
            None => Ok(()),
            Some(mut l) => {
                let r = apply_performance_config(config, &mut l);
                self.laser_engine = Some(l);
                r
            },
        }
    }

    /// Makes a preset's configuration the active one and applies it to the
    /// laser, failing when the laser refuses its power profile.
    pub fn apply_preset(&mut self, preset: PerformancePreset) -> (r: Result<(), PerformanceError>)
        ensures
            final(self).config() == preset_config(preset),
            match old(self).laser() {
                None => r is Ok && final(self).laser() is None,
                Some(l) => {
                    &&& (r is Ok <==> config_applies(preset_config(preset), l))
                    &&& final(self).laser() matches Some(nl) && {
                        &&& (r is Ok ==> nl.profile() == config_power_profile(preset_config(preset)))
                        &&& (r is Err ==> nl.profile() == l.profile())
                        &&& nl.config() == l.config()
                    }
                },
            },
            r matches Err(e) ==> e matches PerformanceError::OptimizationFailed(m) && m@ == laser_error_text(
                LaserError::SafetyViolation,
            ),
            final(self).history() == old(self).history(),
            final(self).benchmarks() == old(self).benchmarks(),
            final(self).active() == old(self).active(),
            final(self).max_history() == old(self).max_history(),
    {
        let config = config_for_preset(preset);
        self.current_config = config;
        self.apply_to_laser(&config)
    }

    /// Score of the newest sample against the active configuration.
    pub fn current_score(&self) -> (r: Option<i64>)
        ensures
            r == (if self.history().len() == 0 {
                None
            } else {
                Some(performance_score(self.history().last(), self.config()) as i64)
            }),
    {
        match self.get_current_metrics() {
            None => None,
            Some(m) => Some(calculate_performance_score(&m, &self.current_config)),
        }
    }

    /// The configuration the benchmarks suggest for conditions `m`.
    pub fn find_optimal_config(&self, metrics: &PerformanceMetrics) -> (r: PerformanceConfig)
        ensures
            r == optimal_config(self.benchmarks(), *metrics),
    {
        find_optimal_config(&self.benchmark_results, metrics)
    }

    /// When the newest sample scores under 70 points against the active
    /// configuration, switches to the configuration the benchmarks suggest
    /// for its conditions, once the laser has accepted it. Fails without any
    /// sample.
    pub fn optimize_performance(&mut self) -> (r: Result<(), PerformanceError>)
        ensures
            old(self).history().len() == 0 ==> r == Err::<(), PerformanceError>(PerformanceError::InvalidMetrics)
                && final(self).config() == old(self).config() && final(self).laser() == old(self).laser(),
            old(self).history().len() > 0 ==> {
                let m = old(self).history().last();
                let poor = performance_score(m, old(self).config()) < 70_000;
                let better = optimal_config(old(self).benchmarks(), m);
                &&& !poor ==> r is Ok && final(self).config() == old(self).config()
                    && final(self).laser() == old(self).laser()
                &&& poor ==> match old(self).laser() {
                    None => r is Ok && final(self).config() == better && final(self).laser() is None,
                    Some(l) => {
                        &&& (r is Ok <==> config_applies(better, l))
                        &&& (r is Ok ==> final(self).config() == better)
                        &&& (r is Err ==> final(self).config() == old(self).config())
                        &&& final(self).laser() matches Some(nl) && {
                            &&& (r is Ok ==> nl.profile() == config_power_profile(better))
                            &&& (r is Err ==> nl.profile() == l.profile())
                            &&& nl.config() == l.config()
                        }
                    },
                }
            },
            final(self).history() == old(self).history(),
            final(self).benchmarks() == old(self).benchmarks(),
            final(self).active() == old(self).active(),
            final(self).max_history() == old(self).max_history(),
    {
        let current = match self.get_current_metrics() {
            None => return Err(PerformanceError::InvalidMetrics),
            Some(m) => m,
        };
        let score = calculate_performance_score(&current, &self.current_config);
        if score < 70_000 {
            let optimized = find_optimal_config(&self.benchmark_results, &current);
            self.apply_to_laser(&optimized)?;
            self.current_config = optimized;
        }
        Ok(())
    }

    /// Recommendations for the newest sample; none without samples.
    pub fn get_recommendations(&self) -> (r: Vec<String>)
        ensures
            self.history().len() == 0 ==> r@.len() == 0,
            self.history().len() > 0 ==> r@.map_values(|x: String| x@) == recommendation_texts(self.history().last()),
    {
        match self.get_current_metrics() {
            None => Vec::new(),
            Some(m) => recommendations_for(&m),
        }
    }
}

} // verus!

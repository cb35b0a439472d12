use rgibberlink_core::laser::{LaserConfig, LaserEngine, LaserType, ModulationScheme, ReceptionConfig};
use rgibberlink_core::performance_monitor::{
    apply_performance_config, benchmark_range_category, calculate_condition_similarity,
    calculate_performance_score, collect_current_metrics, config_for_preset, recommendations_for,
    summarize_modulation_benchmark, summarize_range_benchmark, EnvironmentalFactors, LaserSnapshot,
    PerformanceConfig, PerformanceError, PerformanceMetrics, PerformanceMonitor, PerformancePreset,
    TransmissionSample,
};
use rgibberlink_core::protocol::ProtocolState;
use rgibberlink_core::range_detector::RangeDetectorCategory;
use rgibberlink_core::security::WeatherCondition;

fn metrics(latency: u64, throughput: u64, power_uw: u64, ber_ppm: u64) -> PerformanceMetrics {
    PerformanceMetrics {
        timestamp: 0,
        handshake_latency_ms: latency,
        data_throughput_bps: throughput,
        bit_error_rate_ppm: ber_ppm,
        packet_loss_rate_ppm: 0,
        power_consumption_uw: power_uw,
        range_cm: 10000,
        signal_strength_ppm: 0,
        modulation_scheme: ModulationScheme::Ook,
        ecc_strength_ppm: 0,
        environmental_conditions: EnvironmentalFactors::default(),
    }
}

#[test]
fn test_performance_monitor_creation() {
    let monitor = PerformanceMonitor::new(100);
    assert!(!monitor.is_optimization_active());
    assert!(monitor.get_current_metrics().is_none());
}

#[test]
fn test_performance_config_defaults() {
    let config = PerformanceConfig::default();
    assert_eq!(config.target_latency_ms, 500);
    assert_eq!(config.target_throughput_bps, 1_000_000);
}

#[test]
fn test_range_category_methods() {
    assert_eq!(RangeDetectorCategory::Close.expected_throughput(), 2_000_000);
    assert_eq!(RangeDetectorCategory::Extreme.max_power(), 100_000);
    assert_eq!(RangeDetectorCategory::Far.expected_range(), 15000);
    assert_eq!(RangeDetectorCategory::Medium.test_packet_size(), 1024);
}

#[test]
fn test_presets() {
    let speed = config_for_preset(PerformancePreset::SpeedOptimized);
    assert_eq!(speed.target_latency_ms, 300);
    assert_eq!(speed.max_power_uw, 100_000);
    assert!(!speed.adaptive_ecc);
    let long = config_for_preset(PerformancePreset::LongRangeOptimized);
    assert_eq!(long.modulation_scheme, ModulationScheme::QrProjection);
    assert_eq!(long.min_reliability_ppm, 980_000);
    let custom = PerformanceConfig { target_latency_ms: 1, ..PerformanceConfig::default() };
    assert_eq!(config_for_preset(PerformancePreset::Custom(custom)), custom);
}

#[test]
fn test_score_formula() {
    let config = PerformanceConfig::default();
    // 250 ms of 500: 12.5 points; 500 kbit/s of 1 Mbit/s: 12.5; 25 mW of 50: 12.5;
    // 1% bit errors: 24.75. Total 62.25 points.
    let m = metrics(250, 500_000, 25_000, 10_000);
    assert_eq!(calculate_performance_score(&m, &config), 62_250);
    // A zero target counts as reached.
    let zero = PerformanceConfig { target_throughput_bps: 0, ..config };
    assert_eq!(calculate_performance_score(&metrics(500, 0, 50_000, 0), &zero), 50_000);
}

#[test]
fn test_condition_similarity() {
    let a = metrics(0, 0, 0, 0);
    let mut b = a;
    assert_eq!(calculate_condition_similarity(&a, &b), 1_000_000);
    b.range_cm = 15000; // 50 m apart: half
    assert_eq!(calculate_condition_similarity(&a, &b), 500_000);
    b.environmental_conditions.weather = WeatherCondition::Rain;
    assert_eq!(calculate_condition_similarity(&a, &b), 250_000);
    b.range_cm = 100000;
    assert_eq!(calculate_condition_similarity(&a, &b), 100_000);
}

#[test]
fn test_modulation_benchmark_summary() {
    let samples = vec![
        TransmissionSample::Delivered { throughput_bps: 1_000_000, power_uw: 20_000 },
        TransmissionSample::Delivered { throughput_bps: 3_000_000, power_uw: 40_000 },
        TransmissionSample::Failed,
        TransmissionSample::Failed,
    ];
    let r = summarize_modulation_benchmark(ModulationScheme::Pwm, &samples, 42);
    assert_eq!(r.metrics.data_throughput_bps, 2_000_000);
    assert_eq!(r.metrics.power_consumption_uw, 30_000);
    assert_eq!(r.metrics.bit_error_rate_ppm, 500_000);
    assert_eq!(r.metrics.packet_loss_rate_ppm, 1_000_000);
    assert_eq!(r.metrics.signal_strength_ppm, -200_000);
    assert_eq!(r.config.min_reliability_ppm, 500_000);
    assert_eq!(r.reliability_score_ppm, 500_000);
    assert_eq!(r.efficiency_bps_per_mw, Some(66_666));
    assert_eq!(r.metrics.timestamp, 42);
}

#[test]
fn test_empty_benchmark_summary() {
    let r = summarize_modulation_benchmark(ModulationScheme::Ook, &Vec::new(), 0);
    assert_eq!(r.metrics.data_throughput_bps, 0);
    assert_eq!(r.metrics.bit_error_rate_ppm, 0);
    assert_eq!(r.efficiency_bps_per_mw, None);
}

#[test]
fn test_range_benchmark_floors() {
    let samples = vec![TransmissionSample::Delivered { throughput_bps: 10, power_uw: 1 }];
    let m = summarize_range_benchmark(RangeDetectorCategory::Far, &samples, None, 7);
    assert_eq!(m.data_throughput_bps, 50_000);
    assert_eq!(m.power_consumption_uw, 35_000);
    assert_eq!(m.range_cm, 15000);
    assert_eq!(m.handshake_latency_ms, 450);
    assert_eq!(m.modulation_scheme, ModulationScheme::Manchester);
    assert_eq!(m.ecc_strength_ppm, 600_000);
    let failing = vec![TransmissionSample::Failed; 4];
    let m2 = summarize_range_benchmark(RangeDetectorCategory::Close, &failing, Some(4000), 7);
    assert_eq!(m2.signal_strength_ppm, 100_000);
    assert_eq!(m2.range_cm, 4000);
    let b = benchmark_range_category(RangeDetectorCategory::Close, &m2);
    assert_eq!(b.config.target_throughput_bps, 2_000_000);
    assert_eq!(b.config.min_reliability_ppm, 900_000);
}

#[test]
fn test_collect_metrics() {
    let laser = LaserSnapshot {
        power_consumption_uw: 3000,
        signal_strength_permille: 800,
        modulation: ModulationScheme::Pwm,
        data_rate_bps: 1_000_000,
        failure_count: 2,
    };
    let m = collect_current_metrics(5, Some(laser), true, Some(&ProtocolState::Connected), None);
    assert_eq!(m.handshake_latency_ms, 350);
    assert_eq!(m.bit_error_rate_ppm, 2000);
    assert_eq!(m.packet_loss_rate_ppm, 10_000);
    assert_eq!(m.signal_strength_ppm, 800_000);
    let idle = collect_current_metrics(5, None, true, Some(&ProtocolState::Idle), None);
    assert_eq!(idle.handshake_latency_ms, 550);
    let none = collect_current_metrics(5, None, true, None, None);
    assert_eq!(none.handshake_latency_ms, 450);
    let quiet = collect_current_metrics(5, None, false, None, None);
    assert_eq!(quiet.handshake_latency_ms, 0);
}

#[test]
fn test_history_is_bounded() {
    let mut monitor = PerformanceMonitor::new(2);
    for t in 0..5u64 {
        let mut m = metrics(100, 1, 1, 0);
        m.timestamp = t;
        monitor.record_metrics(m);
    }
    let newest = monitor.get_metrics_history(10);
    assert_eq!(newest.len(), 2);
    assert_eq!(newest[0].timestamp, 4);
    assert_eq!(newest[1].timestamp, 3);
    assert_eq!(monitor.get_current_metrics().unwrap().timestamp, 4);
}

#[test]
fn test_recommendations() {
    let r = recommendations_for(&metrics(600, 100, 60_000, 20_000));
    assert_eq!(r.len(), 4);
    assert!(r[0].contains("latency"));
    assert!(r[3].contains("bit error rate"));
    assert!(recommendations_for(&metrics(100, 2_000_000, 1000, 0)).is_empty());
    let mut monitor = PerformanceMonitor::new(10);
    assert!(monitor.get_recommendations().is_empty());
    monitor.record_metrics(metrics(600, 2_000_000, 1000, 0));
    assert_eq!(monitor.get_recommendations().len(), 1);
}

#[test]
fn test_apply_preset_to_laser() {
    let mut laser = LaserEngine::new(LaserConfig { laser_type: LaserType::Infrared, ..LaserConfig::default() }, ReceptionConfig::default(), 0);
    let balanced = config_for_preset(PerformancePreset::Balanced);
    assert!(apply_performance_config(&balanced, &mut laser).is_err());
    let power = config_for_preset(PerformancePreset::PowerOptimized);
    assert!(apply_performance_config(&power, &mut laser).is_ok());
    assert_eq!(laser.get_current_power_profile().optimal_power_uw, 6000);
    assert_eq!(laser.get_current_power_profile().min_power_uw, 2000);

    let mut monitor = PerformanceMonitor::new(10).with_engines(Some(LaserEngine::new(LaserConfig::default(), ReceptionConfig::default(), 0)));
    match monitor.apply_preset(PerformancePreset::SpeedOptimized) {
        Err(PerformanceError::OptimizationFailed(m)) => assert_eq!(m, "Safety violation"),
        other => panic!("unexpected {:?}", other),
    }
    assert_eq!(monitor.get_current_config().target_latency_ms, 300);
    let mut bare = PerformanceMonitor::new(10);
    assert!(bare.apply_preset(PerformancePreset::HighBandwidth).is_ok());
}

#[test]
fn test_optimize_performance() {
    let mut monitor = PerformanceMonitor::new(10);
    assert_eq!(monitor.optimize_performance(), Err(PerformanceError::InvalidMetrics));
    let samples = vec![TransmissionSample::Delivered { throughput_bps: 100_000, power_uw: 1000 }];
    let bench = summarize_modulation_benchmark(ModulationScheme::Fsk, &samples, 0);
    monitor.record_benchmarks(vec![bench]);
    monitor.record_metrics(metrics(2000, 10, 200_000, 500_000));
    assert!(monitor.optimize_performance().is_ok());
    assert_eq!(monitor.get_current_config().modulation_scheme, ModulationScheme::Fsk);
    assert_eq!(monitor.get_benchmark_results().len(), 1);
}

#[test]
fn test_monitoring_flag() {
    let mut monitor = PerformanceMonitor::new(10);
    assert!(monitor.start_monitoring().is_ok());
    assert!(monitor.is_optimization_active());
    monitor.stop_monitoring();
    assert!(!monitor.is_optimization_active());
}

use rgibberlink_core::optical_ecc::AdaptiveECCConfig;
use rgibberlink_core::laser::{BatteryState, RangeReading, ReceiveStep, ReceptionConfig, ReceptionSource, Transmission};
use rgibberlink_core::laser::transmission::{frame_bits, LaserStep, TransmissionPlan};
use rgibberlink_core::laser::{
    detect_channel_failures, infer_weather_from_conditions, rs_decode_frame, rs_encode_frame, AlignmentStatus,
    EnvironmentalImpact, LaserConfig, LaserEngine, LaserError, LaserType, ModulationScheme, PowerProfile,
    RangeEnvironmentalConditions,
};
use rgibberlink_core::range_detector::{RangeDetectorCategory, RangeMeasurement};
use rgibberlink_core::security::WeatherCondition;

#[test]
fn test_laser_engine_creation() {
    let engine = LaserEngine::new(LaserConfig::default(), ReceptionConfig::default(), 0);
    assert!(!engine.is_optical_ecc_enabled());
    assert!(!engine.is_adaptive_mode());
    assert_eq!(engine.get_current_power_profile(), PowerProfile::default());
}

#[test]
fn test_error_correction() {
    let mut engine = LaserEngine::new(LaserConfig::default(), ReceptionConfig::default(), 0);
    let test_data = vec![1, 2, 3, 4, 5, 6, 7, 8, 9, 10, 11, 12, 13, 14, 15, 16];
    let encoded = engine.encode_with_ecc(&test_data);
    assert!(encoded.is_ok());
    let encoded_data = encoded.unwrap();
    assert_eq!(encoded_data.len(), 20);
    let decoded = engine.decode_with_ecc(&encoded_data);
    assert!(decoded.is_ok());
    assert_eq!(test_data, decoded.unwrap());
}

#[test]
fn test_frame_round_trip_larger() {
    let data: Vec<u8> = (0..64u8).collect();
    let frame = rs_encode_frame(&data).unwrap();
    assert_eq!(frame.len(), 80);
    assert_eq!(&frame[..64], &data[..]);
    let back = rs_decode_frame(&frame).unwrap();
    assert_eq!(back, data);
}

#[test]
fn test_parity_is_computed() {
    let data: Vec<u8> = (1..=16u8).collect();
    let frame = rs_encode_frame(&data).unwrap();
    assert_ne!(&frame[16..20], &[0u8, 0, 0, 0]);
}

#[test]
fn test_frame_errors() {
    assert_eq!(rs_encode_frame(&[]), Err(LaserError::DataCorruption));
    assert_eq!(rs_decode_frame(&[1u8; 39]), Err(LaserError::DataCorruption));
}

#[test]
fn test_safety_limits() {
    let engine = LaserEngine::new(LaserConfig::default(), ReceptionConfig::default(), 0);
    assert_eq!(engine.laser_power_for_intensity(1500), Err(LaserError::SafetyViolation));
    assert_eq!(engine.laser_power_for_intensity(1000), Ok(1000));
    assert_eq!(engine.laser_power_for_intensity(500), Ok(500));
    assert_eq!(engine.get_effective_power_limit(), 1000);
}

#[test]
fn test_power_management() {
    let mut engine = LaserEngine::new(LaserConfig::default(), ReceptionConfig::default(), 0);
    let unsafe_profile = PowerProfile::for_range_category(&RangeDetectorCategory::Extreme);
    assert_eq!(engine.set_power_profile(unsafe_profile), Err(LaserError::SafetyViolation));
    assert_eq!(engine.get_current_power_profile(), PowerProfile::default());
    let mut ir = LaserEngine::new(LaserConfig { laser_type: LaserType::Infrared, ..LaserConfig::default() }, ReceptionConfig::default(), 0);
    let close = PowerProfile::close_range();
    assert!(ir.set_power_profile(close).is_ok());
    assert_eq!(ir.get_current_power_profile(), close);
}

#[test]
fn test_adaptive_modulation() {
    let mut engine = LaserEngine::new(LaserConfig::default(), ReceptionConfig::default(), 0);
    assert_eq!(engine.select_optimal_modulation(Some(RangeDetectorCategory::Extreme), None, 900), ModulationScheme::Ook);
    engine.enable_adaptive_mode();
    assert_eq!(engine.select_optimal_modulation(Some(RangeDetectorCategory::Extreme), None, 900), ModulationScheme::QrProjection);
    assert_eq!(engine.select_optimal_modulation(Some(RangeDetectorCategory::Close), None, 900), ModulationScheme::Ook);
    assert_eq!(engine.select_optimal_modulation(Some(RangeDetectorCategory::Medium), None, 500), ModulationScheme::Fsk);
    let fog = EnvironmentalImpact { weather: WeatherCondition::Fog, visibility_cm: 10000, attenuation_permille: 2000 };
    assert_eq!(engine.select_optimal_modulation(Some(RangeDetectorCategory::Far), Some(fog), 900), ModulationScheme::QrProjection);
    assert_eq!(engine.select_optimal_modulation(None, Some(fog), 900), ModulationScheme::Manchester);
    assert_eq!(engine.select_optimal_modulation(None, None, 100), ModulationScheme::QrProjection);
}

#[test]
fn test_range_profile_application() {
    let mut engine = LaserEngine::new(LaserConfig::default(), ReceptionConfig::default(), 0);
    assert_eq!(engine.apply_range_measurement(3000, None), Err(LaserError::HardwareUnavailable));
    engine.enable_adaptive_mode();
    assert!(engine.apply_range_measurement(12000, None).is_ok());
    assert_eq!(engine.get_current_power_profile(), PowerProfile::far_range());
}

#[test]
fn test_channel_failures() {
    let aligned = AlignmentStatus { is_aligned: true, signal_strength_permille: 900 };
    assert!(detect_channel_failures(true, aligned, true).is_empty());
    let lost = AlignmentStatus { is_aligned: false, signal_strength_permille: 100 };
    let failures = detect_channel_failures(true, lost, false);
    assert!(failures.contains(&LaserError::AlignmentLost));
    assert!(failures.contains(&LaserError::SafetyViolation));
    assert_eq!(detect_channel_failures(false, aligned, true), vec![LaserError::HardwareUnavailable]);
}

#[test]
fn test_weather_inference() {
    let foggy = RangeEnvironmentalConditions {
        temperature_mdeg_c: 10000,
        humidity_permille: 980,
        pressure_pa: 101325,
        wind_speed_mm_per_s: 0,
        visibility_cm: 20000,
    };
    assert_eq!(infer_weather_from_conditions(&foggy), WeatherCondition::Fog);
}

#[test]
fn test_error_messages() {
    assert_eq!(LaserError::SafetyViolation.message(), "Safety violation");
    assert_eq!(LaserError::HardwareUnavailable.message(), "Hardware not available");
}

fn infrared_engine(now_ms: u64) -> LaserEngine {
    LaserEngine::new(LaserConfig { laser_type: LaserType::Infrared, ..LaserConfig::default() }, ReceptionConfig::default(), now_ms)
}

#[test]
fn test_power_safety_checks() {
    let visible = LaserEngine::new(LaserConfig::default(), ReceptionConfig::default(), 0);
    assert!(!visible.is_power_safe());
    assert_eq!(visible.check_safety(), Err(LaserError::SafetyViolation));
    let ir = infrared_engine(0);
    assert!(ir.is_power_safe());
    assert_eq!(ir.check_safety(), Ok(()));
    assert_eq!(ir.get_current_power_consumption(), 3000);
}

#[test]
fn test_intensity_energy_accounting() {
    let mut ir = infrared_engine(0);
    assert_eq!(ir.set_laser_intensity(500, 10), Ok(2500));
    assert_eq!(ir.get_safety_stats(20), (2500, 0, 10));
    assert_eq!(ir.get_power_efficiency(20), 250);
    assert_eq!(ir.get_power_efficiency(10), 0);
    assert_eq!(ir.set_laser_intensity(1001, 15), Err(LaserError::SafetyViolation));
    assert_eq!(ir.get_safety_stats(20), (2500, 0, 10));
    assert_eq!(ir.emergency_shutdown(30), Ok(()));
    assert_eq!(ir.get_safety_stats(30), (2500, 1, 0));
    ir.reset_energy_monitoring(100);
    assert_eq!(ir.get_safety_stats(100), (0, 0, 0));
}

#[test]
fn test_monitor_power_safety_escalates() {
    let mut visible = LaserEngine::new(LaserConfig::default(), ReceptionConfig::default(), 0);
    for expected in 1..=3u32 {
        assert_eq!(visible.monitor_power_safety(5), Err(LaserError::SafetyViolation));
        assert_eq!(visible.get_safety_stats(5).1, expected);
    }
    assert_eq!(visible.monitor_power_safety(7), Ok(()));
    assert_eq!(visible.get_safety_stats(7), (0, 5, 0));
    let mut ir = infrared_engine(0);
    assert_eq!(ir.monitor_power_safety(5), Ok(()));
    assert_eq!(ir.get_safety_stats(5).1, 0);
}

#[test]
fn test_battery_power_optimization() {
    let mut engine = LaserEngine::new(LaserConfig::default(), ReceptionConfig::default(), 0);
    assert_eq!(engine.optimize_power_usage(None), Ok(()));
    assert_eq!(engine.get_current_power_consumption(), 3000);
    let hot = BatteryState {
        voltage_mv: 3700,
        current_ma: 100,
        capacity_permille: 900,
        temperature_mdeg_c: 50000,
        estimated_runtime_min: 300,
    };
    assert_eq!(engine.optimize_power_usage(Some(hot)), Ok(()));
    assert_eq!(engine.get_current_power_consumption(), 2100);
    let empty = BatteryState { capacity_permille: 100, temperature_mdeg_c: 20000, ..hot };
    assert_eq!(engine.optimize_power_usage(Some(empty)), Ok(()));
    assert_eq!(engine.get_current_power_consumption(), 1000);
}

#[test]
fn test_duty_cycle_and_drain() {
    let engine = LaserEngine::new(LaserConfig::default(), ReceptionConfig::default(), 0);
    assert_eq!(engine.calculate_optimal_duty_cycle(500_000, 2500), 250);
    assert_eq!(engine.calculate_optimal_duty_cycle(1000, 2500), 100);
    assert_eq!(engine.calculate_optimal_duty_cycle(2_000_000, 10_000), 1000);
    assert_eq!(engine.predict_battery_drain(400_000), 30);
    assert_eq!(engine.predict_battery_drain(1000), 0);
}

#[test]
fn test_power_budget() {
    let engine = LaserEngine::new(LaserConfig::default(), ReceptionConfig::default(), 0);
    let short = engine.calculate_power_budget("scan", 10_000);
    assert_eq!(short.operation, "scan");
    assert_eq!(short.energy_required_uj, 30_000);
    assert!(short.can_complete_operation);
    assert_eq!(short.estimated_battery_drain_ppm, 0);
    assert_eq!(short.recommended_power_level_uw, 3000);
    let long = engine.calculate_power_budget("survey", 20_000_000_000);
    assert_eq!(long.energy_required_uj, 60_000_000_000);
    assert!(!long.can_complete_operation);
    assert_eq!(long.estimated_battery_drain_ppm, 1_500_000);
    assert_eq!(long.recommended_power_level_uw, 1600);
}

#[test]
fn test_power_recommendations() {
    let engine = LaserEngine::new(LaserConfig::default(), ReceptionConfig::default(), 0);
    let weak = BatteryState {
        voltage_mv: 3300,
        current_ma: -50,
        capacity_permille: 100,
        temperature_mdeg_c: 50000,
        estimated_runtime_min: 30,
    };
    let recs = engine.get_power_recommendations(Some(weak), 0);
    assert_eq!(
        recs,
        vec![
            "Battery critically low. Switching to emergency power mode.".to_string(),
            "Estimated runtime very low. Enable burst mode for power saving.".to_string(),
            "High battery temperature detected. Reducing power to prevent damage.".to_string(),
            "Low power efficiency detected. Consider duty cycle optimization.".to_string(),
        ]
    );
    let mut ir = infrared_engine(0);
    ir.set_laser_intensity(1000, 0).unwrap();
    assert_eq!(ir.get_power_efficiency(5), 1000);
    assert!(ir.get_power_recommendations(None, 5).is_empty());
}

#[test]
fn test_channel_diagnostics() {
    let engine = LaserEngine::new(LaserConfig::default(), ReceptionConfig::default(), 0);
    let aligned = AlignmentStatus { is_aligned: true, signal_strength_permille: 900 };
    let d = engine.get_channel_diagnostics(true, aligned, 0);
    assert!(d.is_active);
    assert_eq!(d.power_consumption_uw, 3000);
    assert!(!d.power_safe);
    assert_eq!(d.detected_failures, vec![LaserError::SafetyViolation]);
    assert_eq!(d.power_statistics.peak_power_uw, 5000);
    assert_eq!(d.power_statistics.duty_cycle_permille, 500);
    assert!(d.battery_state.is_none());
}

fn active_infrared(modulation: ModulationScheme, data_rate_bps: u32) -> LaserEngine {
    let config = LaserConfig { laser_type: LaserType::Infrared, modulation, data_rate_bps, ..LaserConfig::default() };
    let mut engine = LaserEngine::new(config, ReceptionConfig::default(), 0);
    assert_eq!(engine.initialize(), Ok(()));
    assert!(engine.is_active());
    engine
}

fn plan_steps(t: &Transmission) -> &Vec<LaserStep> {
    match &t.plan {
        TransmissionPlan::Steps(v) => v,
        TransmissionPlan::QrProjection(_) => panic!("expected steps"),
    }
}

#[test]
fn test_transmit_refusals() {
    let mut idle = LaserEngine::new(LaserConfig::default(), ReceptionConfig::default(), 0);
    assert_eq!(idle.transmit_data(&[1u8; 16], None, 5).unwrap_err(), LaserError::HardwareUnavailable);
    let mut visible = LaserEngine::new(LaserConfig::default(), ReceptionConfig::default(), 0);
    visible.initialize().unwrap();
    assert_eq!(visible.transmit_data(&[1u8; 16], None, 5).unwrap_err(), LaserError::SafetyViolation);
    let mut ir = active_infrared(ModulationScheme::Ook, 1_000_000);
    assert_eq!(ir.transmit_data(&[], None, 5).unwrap_err(), LaserError::DataCorruption);
    ir.enable_adaptive_mode();
    assert_eq!(ir.transmit_data(&[1u8; 16], None, 5).unwrap_err(), LaserError::TransmissionFailed);
    assert_eq!(ir.shutdown(), Ok(()));
    assert!(!ir.is_active());
}

#[test]
fn test_ook_transmission_counts_energy() {
    let mut ir = active_infrared(ModulationScheme::Ook, 1_000_000);
    let t = ir.transmit_data(&[0xA5u8; 16], None, 7).unwrap();
    assert_eq!(t.safety, Ok(()));
    let steps = plan_steps(&t);
    assert_eq!(steps.len(), 160);
    let first: Vec<u32> = steps[..8].iter().map(|s| s.intensity_permille).collect();
    assert_eq!(first, vec![1000, 0, 1000, 0, 0, 1000, 0, 1000]);
    assert!(steps.iter().all(|s| s.duration_us == 1 && s.frequency_hz == 0));
    let on = steps.iter().filter(|s| s.intensity_permille == 1000).count() as u64;
    assert_eq!(ir.get_safety_stats(7), (5000 * on, 0, 0));
}

#[test]
fn test_other_modulations() {
    let mut fsk = active_infrared(ModulationScheme::Fsk, 1_000_000);
    let t = fsk.transmit_data(&[0x80u8; 16], None, 1).unwrap();
    let steps = plan_steps(&t);
    assert_eq!(steps.len(), 160);
    assert_eq!(steps[0], LaserStep { intensity_permille: 1000, frequency_hz: 1500, duration_us: 1 });
    assert_eq!(steps[1], LaserStep { intensity_permille: 1000, frequency_hz: 1000, duration_us: 1 });

    let mut manchester = active_infrared(ModulationScheme::Manchester, 1000);
    let t = manchester.transmit_data(&[0x80u8; 16], None, 1).unwrap();
    let steps = plan_steps(&t);
    assert_eq!(steps.len(), 320);
    let first: Vec<u32> = steps[..4].iter().map(|s| s.intensity_permille).collect();
    assert_eq!(first, vec![1000, 0, 0, 1000]);
    assert_eq!(steps[0].duration_us, 500);

    let mut pwm = active_infrared(ModulationScheme::Pwm, 1000);
    let t = pwm.transmit_data(&[165u8; 16], None, 1).unwrap();
    let steps = plan_steps(&t);
    assert_eq!(steps.len(), 40);
    assert_eq!(steps[0], LaserStep { intensity_permille: 1000, frequency_hz: 0, duration_us: 647 });
    assert_eq!(steps[1], LaserStep { intensity_permille: 0, frequency_hz: 0, duration_us: 353 });

    let mut qr = active_infrared(ModulationScheme::QrProjection, 1000);
    let data = [9u8; 16];
    let t = qr.transmit_data(&data, None, 1).unwrap();
    match t.plan {
        TransmissionPlan::QrProjection(frame) => {
            assert_eq!(frame.len(), 20);
            assert_eq!(&frame[..16], &data[..]);
        },
        TransmissionPlan::Steps(_) => panic!("expected a projection"),
    }
    assert_eq!(qr.get_safety_stats(1), (0, 0, 1));
}

#[test]
fn test_adaptive_transmission() {
    let mut ir = active_infrared(ModulationScheme::Ook, 1000);
    ir.enable_adaptive_mode();
    let reading = RangeReading { distance_cm: 3000, env: None };
    let t = ir.transmit_data(&[0x0Fu8; 16], Some(reading), 2).unwrap();
    assert_eq!(ir.get_current_power_profile(), PowerProfile::close_range());
    let steps = plan_steps(&t);
    assert_eq!(steps.len(), 320);
    assert_eq!(steps[0].duration_us, 500);
    assert_eq!(steps[0].intensity_permille, 0);
    assert_eq!(steps[1].intensity_permille, 1000);
}

#[test]
fn test_frame_bits_msb_first() {
    assert_eq!(frame_bits(&[0x81u8]), vec![true, false, false, false, false, false, false, true]);
    assert!(frame_bits(&[]).is_empty());
}

#[test]
fn test_receive_loop_steps() {
    let mut ir = active_infrared(ModulationScheme::Ook, 1_000_000);
    let data: Vec<u8> = (1..=16u8).collect();
    let frame = rs_encode_frame(&data).unwrap();
    match ir.receive_data(ModulationScheme::Ook, 10, 100, true, Ok(frame.clone())) {
        ReceiveStep::Done(Ok(v)) => assert_eq!(v, data),
        other => panic!("unexpected {:?}", other),
    }
    assert!(matches!(ir.receive_data(ModulationScheme::Ook, 200, 100, true, Ok(frame.clone())), ReceiveStep::Done(Err(LaserError::Timeout))));
    assert!(matches!(ir.receive_data(ModulationScheme::Ook, 10, 100, false, Ok(frame.clone())), ReceiveStep::Retry));
    assert!(matches!(ir.receive_data(ModulationScheme::Ook, 10, 100, true, Err(LaserError::ReceptionFailed)), ReceiveStep::Retry));
    assert!(matches!(ir.receive_data(ModulationScheme::Ook, 10, 100, true, Ok(vec![0u8; 39])), ReceiveStep::Retry));
    match ir.receive_data(ModulationScheme::Fsk, 10, 100, true, Ok(vec![])) {
        ReceiveStep::Done(Ok(v)) => assert_eq!(v, vec![0xAA, 0xBB, 0xCC]),
        other => panic!("unexpected {:?}", other),
    }
    match ir.receive_data(ModulationScheme::Manchester, 10, 100, true, Ok(vec![])) {
        ReceiveStep::Done(Ok(v)) => assert_eq!(v, vec![0x11, 0x22, 0x33]),
        other => panic!("unexpected {:?}", other),
    }
    ir.shutdown().unwrap();
    assert!(matches!(ir.receive_data(ModulationScheme::Ook, 10, 100, true, Ok(frame)), ReceiveStep::Done(Err(LaserError::HardwareUnavailable))));
}

#[test]
fn test_reception_sources() {
    let none = ReceptionConfig { use_photodiode: false, use_camera: false, ..ReceptionConfig::default() };
    let mut engine = LaserEngine::new(LaserConfig::default(), none, 0);
    assert_eq!(engine.reception_source(ModulationScheme::Ook), None);
    assert_eq!(engine.reception_source(ModulationScheme::QrProjection), Some(ReceptionSource::Camera));
    assert_eq!(engine.receive_attempt(ModulationScheme::Pwm, true, Ok(vec![])), Err(LaserError::ReceptionFailed));
    assert_eq!(engine.receive_attempt(ModulationScheme::Pwm, false, Ok(vec![])), Err(LaserError::AlignmentLost));
    let default_engine = LaserEngine::new(LaserConfig::default(), ReceptionConfig::default(), 0);
    assert_eq!(default_engine.reception_source(ModulationScheme::Fsk), Some(ReceptionSource::Photodiode));
}

#[test]
fn test_range_monitoring() {
    let mut engine = LaserEngine::new(LaserConfig::default(), ReceptionConfig::default(), 0);
    assert_eq!(engine.start_continuous_monitoring(), Err(LaserError::HardwareUnavailable));
    assert_eq!(engine.measure_range_and_update_power(None), Err(LaserError::HardwareUnavailable));
    assert_eq!(engine.update_range_detector_environment(WeatherCondition::Fog, 5000), Err(LaserError::HardwareUnavailable));
    engine.enable_adaptive_mode();
    assert_eq!(engine.start_continuous_monitoring(), Ok(()));
    assert_eq!(engine.measure_range_and_update_power(None), Err(LaserError::TransmissionFailed));
    assert_eq!(engine.measure_range_and_update_power(Some(RangeReading { distance_cm: 7000, env: None })), Ok(()));
    assert_eq!(engine.get_current_power_profile(), PowerProfile::medium_range());
    let fog = engine.update_range_detector_environment(WeatherCondition::Fog, 5000).unwrap();
    assert_eq!(fog.humidity_permille, 980);
    assert_eq!(engine.continuous_monitoring_tick(None, Some(12000)), Some(RangeDetectorCategory::Far));
    assert_eq!(engine.get_current_power_profile(), PowerProfile::far_range());
    assert_eq!(engine.continuous_monitoring_tick(Some(RangeDetectorCategory::Far), None), Some(RangeDetectorCategory::Far));
    assert_eq!(engine.continuous_monitoring_tick(Some(RangeDetectorCategory::Far), Some(2000)), Some(RangeDetectorCategory::Close));
    assert_eq!(engine.get_current_power_profile(), PowerProfile::close_range());
}

#[test]
fn test_standby_and_emergency_power() {
    let mut ir = active_infrared(ModulationScheme::Ook, 1000);
    assert_eq!(ir.set_standby_mode(true, 40), Ok(()));
    assert_eq!(ir.get_safety_stats(40), (0, 0, 0));
    assert_eq!(ir.emergency_power_shutdown(50), Ok(()));
    assert_eq!(ir.get_safety_stats(50), (0, 1, 0));
}

#[test]
fn test_monitoring_and_ecc_state() {

    let mut engine = LaserEngine::new(LaserConfig::default(), ReceptionConfig::default(), 0);
    assert!(engine.get_optical_ecc_state().is_none());
    assert_eq!(engine.get_monitoring_status(Some(RangeDetectorCategory::Far)), (false, None));
    engine.enable_adaptive_mode();
    assert_eq!(engine.get_monitoring_status(Some(RangeDetectorCategory::Far)), (true, Some(RangeDetectorCategory::Far)));
    engine.enable_optical_ecc(AdaptiveECCConfig::default(), 0).unwrap();
    assert!(engine.get_optical_ecc_state().is_some());
    assert_eq!(engine.update_modulation_scheme(None, None, 800), Ok(()));
}

#[test]
fn test_laser_engine_initialization() {
    let config = LaserConfig::default();
    let rx_config = ReceptionConfig::default();
    let mut engine = LaserEngine::new(config, rx_config, 0);
    let result = engine.initialize();
    assert!(result.is_ok());
    assert!(engine.is_active());
}

#[test]
fn test_current_range_measurement() {
    let mut engine = LaserEngine::new(LaserConfig::default(), ReceptionConfig::default(), 0);
    let first = RangeMeasurement {
        distance_cm: 5000,
        signal_strength_permille: 800,
        timestamp_ms: 10,
        quality_score_permille: 900,
        temperature_compensated: true,
    };
    let second = RangeMeasurement { distance_cm: 7000, timestamp_ms: 20, ..first };
    let history = vec![first, second];
    assert_eq!(engine.get_current_range_measurement(&history), None);
    engine.enable_adaptive_mode();
    assert_eq!(engine.get_current_range_measurement(&vec![]), None);
    assert_eq!(engine.get_current_range_measurement(&history), Some(second));
}

#[test]
fn test_burst_power() {
    let mut engine = LaserEngine::new(LaserConfig::default(), ReceptionConfig::default(), 0);
    let before = engine.get_current_power_profile();
    engine.apply_burst_power(before.optimal_power_uw * 2);
    let after = engine.get_current_power_profile();
    assert_eq!(after.optimal_power_uw, before.optimal_power_uw * 2);
    assert_eq!(after.max_power_uw, before.max_power_uw);
    assert_eq!(after.data_rate_bps, before.data_rate_bps);
}

#[test]
fn test_inactive_laser_refuses_any_payload() {
    let mut engine = LaserEngine::new(LaserConfig::default(), ReceptionConfig::default(), 0);
    let before = engine.get_safety_stats(0);
    assert_eq!(engine.transmit_data(&[7], None, 10).err(), Some(LaserError::HardwareUnavailable));
    assert_eq!(engine.transmit_data(&[], None, 10).err(), Some(LaserError::HardwareUnavailable));
    assert_eq!(engine.get_safety_stats(0), before);
}

#[test]
fn test_laser_environment_and_margins() {
    let mut engine = LaserEngine::new(LaserConfig::default(), ReceptionConfig::default(), 0);
    let before = engine.get_current_power_profile();
    assert_eq!(engine.update_environmental_conditions(WeatherCondition::Fog, 5000), Err(LaserError::HardwareUnavailable));
    assert_eq!(engine.get_current_power_profile(), before);
    engine.enable_adaptive_mode();
    let conditions = engine.update_environmental_conditions(WeatherCondition::Fog, 5000).unwrap();
    assert_eq!(conditions.humidity_permille, 980);
    let clear = engine.update_range_detector_environment(WeatherCondition::Clear, 1_000_000).unwrap();
    assert_eq!(engine.get_safety_margins(clear).1, 1000);
    let fog = engine.update_range_detector_environment(WeatherCondition::Fog, 5000).unwrap();
    assert_eq!(engine.get_safety_margins(fog).1, 800);
    let detached = LaserEngine::new(LaserConfig::default(), ReceptionConfig::default(), 0);
    assert_eq!(detached.get_safety_margins(fog), (1000, 1000, 1000));
}

use rgibberlink_core::range_detector::combine_frequency_measurements;
use rgibberlink_core::range_detector::{
    distance_from_echo, validate_measurement, MeasurementHistory, RangeDetector, RangeDetectorCategory, RangeDetectorError,
    RangeMeasurement, RangingConfig,
};
use rgibberlink_core::laser::{ModulationScheme, RangeEnvironmentalConditions};

fn measurement(distance_cm: u32) -> RangeMeasurement {
    RangeMeasurement {
        distance_cm,
        signal_strength_permille: 800,
        timestamp_ms: 0,
        quality_score_permille: 900,
        temperature_compensated: true,
    }
}

#[test]
fn test_range_categories() {
    assert_eq!(RangeDetectorCategory::from_distance(2500), RangeDetectorCategory::Close);
    assert_eq!(RangeDetectorCategory::from_distance(7500), RangeDetectorCategory::Medium);
    assert_eq!(RangeDetectorCategory::from_distance(12500), RangeDetectorCategory::Far);
    assert_eq!(RangeDetectorCategory::from_distance(17500), RangeDetectorCategory::Extreme);
}

#[test]
fn test_category_bounds_and_modulation() {
    assert_eq!(RangeDetectorCategory::Medium.get_range_bounds(), (50, 100));
    assert_eq!(RangeDetectorCategory::Far.optimal_modulation(), ModulationScheme::Manchester);
    assert_eq!(RangeDetectorCategory::from_distance(5000), RangeDetectorCategory::Medium);
}

#[test]
fn test_measurement_storage() {
    let mut history = MeasurementHistory::new();
    history.store_measurement(measurement(10000));
    let stored = history.get_measurement_history();
    assert_eq!(stored.len(), 1);
    assert_eq!(stored[0].distance_cm, 10000);
    assert_eq!(history.get_current_range_category(), Some(RangeDetectorCategory::Far));
}

#[test]
fn test_history_keeps_a_hundred() {
    let mut history = MeasurementHistory::new();
    for d in 0..105u32 {
        history.store_measurement(measurement(d));
    }
    let stored = history.get_measurement_history();
    assert_eq!(stored.len(), 100);
    assert_eq!(stored[0].distance_cm, 5);
}

#[test]
fn test_echo_distance() {
    // 343 m/s, 100 ms round trip: 17.15 m.
    assert_eq!(distance_from_echo(100_000, 343_000), 1715);
}

#[test]
fn test_measurement_validation() {
    let config = RangingConfig::default();
    assert_eq!(validate_measurement(&config, 5000, 0), Err(RangeDetectorError::LowSignalStrength));
    assert!(validate_measurement(&config, 5000, 900).is_ok());
    assert!(matches!(validate_measurement(&config, 1_000_000, 900), Err(RangeDetectorError::InvalidMeasurement(_))));
}

#[test]
fn test_range_detector_creation() {
    let detector = RangeDetector::new();
    assert!(!detector.is_active());
}

#[test]
fn test_range_detector_initialization() {
    let mut detector = RangeDetector::new();
    let result = detector.initialize();
    assert!(result.is_ok());
    assert!(detector.is_active());
}

#[test]
fn test_environmental_compensation() {
    let mut detector = RangeDetector::new();
    let conditions = RangeEnvironmentalConditions {
        temperature_mdeg_c: 30000,
        humidity_permille: 700,
        pressure_pa: 100000,
        wind_speed_mm_per_s: 5000,
        visibility_cm: 500000,
    };
    detector.update_environmental_conditions(conditions);
    let retrieved = detector.get_environmental_conditions();
    assert_eq!(retrieved.temperature_mdeg_c, 30000);
    assert_eq!(retrieved.humidity_permille, 700);
}

#[test]
fn test_detector_measurements() {
    let mut detector = RangeDetector::new();
    assert_eq!(detector.measure_distance(Ok((200_000, 800)), 343_000, 900, 1), Err(RangeDetectorError::HardwareInitFailed));
    detector.initialize().unwrap();
    let m = detector.measure_distance(Ok((200_000, 800)), 343_000, 900, 5).unwrap();
    assert_eq!(m.distance_cm, 3430);
    assert_eq!(m.quality_score_permille, 900);
    assert_eq!(detector.get_current_range_category(), Some(RangeDetectorCategory::Close));
    assert_eq!(detector.measure_distance(Ok((200_000, 100)), 343_000, 900, 6), Err(RangeDetectorError::LowSignalStrength));
    assert!(matches!(detector.measure_distance(Ok((10_000, 800)), 343_000, 900, 7), Err(RangeDetectorError::InvalidMeasurement(_))));
    assert_eq!(detector.measure_distance(Err(RangeDetectorError::Timeout), 343_000, 900, 8), Err(RangeDetectorError::Timeout));
    assert_eq!(detector.get_measurement_history().len(), 1);
    detector.shutdown().unwrap();
    assert!(!detector.is_active());
}

fn reading(distance_cm: u32, signal: u32, quality: u32) -> RangeMeasurement {
    RangeMeasurement {
        distance_cm,
        signal_strength_permille: signal,
        timestamp_ms: 1,
        quality_score_permille: quality,
        temperature_compensated: true,
    }
}

#[test]
fn test_combine_frequency_measurements() {
    let results = vec![Ok(reading(1000, 600, 900)), Err(RangeDetectorError::Timeout), Ok(reading(2000, 900, 700))];
    let combined = combine_frequency_measurements(&results, &vec![300, 500, 200], 50).unwrap();
    // (300 * 1000 + 200 * 2000) / 500 = 1400
    assert_eq!(combined.distance_cm, 1400);
    assert_eq!(combined.signal_strength_permille, 750);
    assert_eq!(combined.quality_score_permille, 800);
    assert_eq!(combined.timestamp_ms, 50);
    let all_failed: Vec<Result<RangeMeasurement, RangeDetectorError>> =
        vec![Err(RangeDetectorError::Timeout), Err(RangeDetectorError::LowSignalStrength)];
    assert_eq!(
        combine_frequency_measurements(&all_failed, &vec![1, 1], 50),
        Err(RangeDetectorError::EchoDetectionFailed)
    );
}

#[test]
fn test_measure_distance_fast() {
    let mut detector = RangeDetector::new();
    let results = vec![Ok(reading(5000, 800, 900)), Ok(reading(5100, 800, 900)), Ok(reading(5200, 800, 900))];
    assert_eq!(detector.measure_distance_fast(&results, 10), Err(RangeDetectorError::HardwareInitFailed));
    detector.initialize().unwrap();
    let m = detector.measure_distance_fast(&results, 10).unwrap();
    // (300 * 5000 + 500 * 5100 + 200 * 5200) / 1000 = 5090
    assert_eq!(m.distance_cm, 5090);
    assert_eq!(detector.get_measurement_history().len(), 1);
}

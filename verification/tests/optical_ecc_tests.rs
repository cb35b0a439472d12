use rgibberlink_core::optical_ecc::{
    AdaptiveECCConfig, AtmosphericCondition, BlockInterleaver, ConvolutionalCodec, ConvolutionalConfig,
    ErrorPatternAnalyzer, InterleavingConfig, OpticalECC, OpticalQualityMetrics, RangeCategory,
};

#[test]
fn test_convolutional_codec() {
    let config = ConvolutionalConfig::default();
    let mut codec = ConvolutionalCodec::new(config);

    let test_data = vec![0b10101010u8, 0b11001100];
    let encoded = codec.encode(&test_data).unwrap();
    let decoded = codec.decode(&encoded).unwrap();

    assert_eq!(test_data, decoded);
}

#[test]
fn test_block_interleaver() {
    let config = InterleavingConfig::default();
    let interleaver = BlockInterleaver::new(config);

    let test_data = (0..16).collect::<Vec<u8>>();
    let interleaved = interleaver.interleave(&test_data).unwrap();
    let deinterleaved = interleaver.deinterleave(&interleaved).unwrap();

    assert_eq!(test_data, deinterleaved);
}

#[test]
fn test_optical_ecc_basic() {
    let mut ecc = OpticalECC::new(AdaptiveECCConfig::default(), 0);
    let test_data = b"Hello, Optical World!";
    let encoded = ecc.encode(test_data).unwrap();
    let decoded = ecc.decode(&encoded).unwrap();
    assert_eq!(test_data, decoded.as_slice());
}

fn metrics(ber_ppm: u64, signal: u32, atten_mdb: u32, turbulence: u32, noise: u32, range_cm: u32) -> OpticalQualityMetrics {
    OpticalQualityMetrics {
        ber_ppm,
        per_ppm: 10_000,
        signal_strength_permille: signal,
        atmospheric_attenuation_mdb: atten_mdb,
        turbulence_index_permille: turbulence,
        background_noise_permille: noise,
        range_cm,
        timestamp_ms: 0,
    }
}

#[test]
fn test_quality_metrics_update() {
    let mut ecc = OpticalECC::new(AdaptiveECCConfig::default(), 0);
    ecc.update_quality_metrics(metrics(1000, 800, 2000, 300, 200, 12_000), 10).unwrap();
    let state = ecc.get_adaptation_state();
    assert_eq!(state.current_range, RangeCategory::Medium);
    assert_eq!(state.current_condition, AtmosphericCondition::Clear);
    // Medium range, clear air: strength 0.5, parity 8, depth 4.
    assert_eq!(state.ecc_strength_permille, 500);
    assert_eq!(ecc.get_config().reed_solomon.parity_shards, 8);
    assert_eq!(ecc.get_config().interleaving.depth, 4);
    assert_eq!(state.last_adaptation_ms, 10);
}

#[test]
fn adaptation_in_heavy_fog_at_long_range_saturates_strength() {
    let mut ecc = OpticalECC::new(AdaptiveECCConfig::default(), 0);
    ecc.update_quality_metrics(metrics(20_000, 500, 12_000, 0, 0, 18_000), 1).unwrap();
    let state = ecc.get_adaptation_state();
    assert_eq!(state.current_range, RangeCategory::Long);
    assert_eq!(state.current_condition, AtmosphericCondition::HeavyFog);
    assert_eq!(state.ecc_strength_permille, 1000);
    assert_eq!(ecc.get_config().reed_solomon.parity_shards, 16);
    assert_eq!(ecc.get_config().interleaving.depth, 8);
}

#[test]
fn short_range_light_fog_strength_and_parity() {
    let mut ecc = OpticalECC::new(AdaptiveECCConfig::default(), 0);
    ecc.update_quality_metrics(metrics(0, 900, 6_000, 0, 0, 5_000), 1).unwrap();
    let state = ecc.get_adaptation_state();
    assert_eq!(state.current_condition, AtmosphericCondition::LightFog);
    // 0.3 * 1.2 = 0.36: parity floor(5.76) = 5, depth floor(2.88) = 2.
    assert_eq!(state.ecc_strength_permille, 360);
    assert_eq!(ecc.get_config().reed_solomon.parity_shards, 5);
    assert_eq!(ecc.get_config().interleaving.depth, 2);
}

#[test]
fn real_time_adaptation_sets_code_rate_from_signal() {
    let mut ecc = OpticalECC::new(AdaptiveECCConfig::default(), 0);
    for t in 0..5 {
        ecc.update_quality_metrics(metrics(0, 400, 0, 0, 0, 12_000), t).unwrap();
    }
    // Weak signal over the last five records: rate 1/3.
    assert_eq!(ecc.get_config().convolutional.code_rate, (1, 3));
    assert_eq!(ecc.get_quality_history().len(), 5);
}

#[test]
fn real_time_adaptation_raises_strength_when_error_rate_is_high() {
    let mut ecc = OpticalECC::new(AdaptiveECCConfig::default(), 0);
    // Oldest record with the highest error rate: positive trend.
    let bers = [30_000u64, 20_000, 20_000, 20_000, 15_000];
    for (t, b) in bers.iter().enumerate() {
        ecc.update_quality_metrics(metrics(*b, 900, 0, 0, 0, 12_000), t as u64).unwrap();
    }
    // Base 0.5 then +0.1.
    assert_eq!(ecc.get_adaptation_state().ecc_strength_permille, 600);
    assert_eq!(ecc.get_config().convolutional.code_rate, (2, 3));
}

#[test]
fn quality_history_keeps_the_newest_hundred() {
    let mut config = AdaptiveECCConfig::default();
    config.adaptation_enabled = false;
    let mut ecc = OpticalECC::new(config, 0);
    for t in 0..105u64 {
        ecc.update_quality_metrics(OpticalQualityMetrics { timestamp_ms: t, ..metrics(0, 0, 0, 0, 0, 0) }, t).unwrap();
    }
    let history = ecc.get_quality_history();
    assert_eq!(history.len(), 100);
    assert_eq!(history[0].timestamp_ms, 5);
    assert_eq!(history[99].timestamp_ms, 104);
}

#[test]
fn output_bit_is_parity_of_tapped_state_bits() {
    let codec = ConvolutionalCodec::new(ConvolutionalConfig::default());
    // Generator 0b1011011 taps bits 0, 1, 3, 4, 6.
    assert_eq!(codec.calculate_output_bit(0b0000001, 0), 1);
    assert_eq!(codec.calculate_output_bit(0b0000011, 0), 0);
    assert_eq!(codec.calculate_output_bit(0b0000100, 0), 0);
    assert_eq!(codec.calculate_output_bit(0b1011011, 0), 1);
    // Generator 0b1111001 taps bits 0, 3, 4, 5, 6.
    assert_eq!(codec.calculate_output_bit(0b0000110, 1), 0);
    assert_eq!(codec.calculate_output_bit(0b0001000, 1), 1);
}

#[test]
fn pattern_analysis_needs_three_frames() {
    let mut analyzer = ErrorPatternAnalyzer::new(10);
    let clean = [1u8, 2, 3, 4];
    assert_eq!(analyzer.analyze_patterns(&clean, &clean).unwrap(), AtmosphericCondition::Clear);
    assert_eq!(analyzer.analyze_patterns(&clean, &[9, 9, 9, 9]).unwrap(), AtmosphericCondition::Clear);
}

#[test]
fn pattern_analysis_detects_bursts_as_heavy_rain() {
    let mut analyzer = ErrorPatternAnalyzer::new(10);
    let sent = [0u8; 8];
    let received = [1u8; 8];
    let mut last = AtmosphericCondition::Clear;
    for _ in 0..3 {
        last = analyzer.analyze_patterns(&received, &sent).unwrap();
    }
    assert_eq!(last, AtmosphericCondition::HeavyRain);
}

#[test]
fn pattern_analysis_scattered_errors_count_as_fog() {
    let mut analyzer = ErrorPatternAnalyzer::new(10);
    let sent = [0u8; 8];
    let received = [1u8, 0, 0, 1, 0, 0, 0, 0];
    let mut last = AtmosphericCondition::Clear;
    for _ in 0..3 {
        last = analyzer.analyze_patterns(&received, &sent).unwrap();
    }
    // Any error makes the density one, which classifies as heavy fog.
    assert_eq!(last, AtmosphericCondition::HeavyFog);
}

#[test]
fn pattern_analysis_clean_history_is_clear() {
    let mut analyzer = ErrorPatternAnalyzer::new(2);
    let data = [5u8; 4];
    for _ in 0..5 {
        assert_eq!(analyzer.analyze_patterns(&data, &data).unwrap(), AtmosphericCondition::Clear);
    }
}

use rgibberlink_core::multimodal::{
    ChunkManager, ChunkingError, CommunicationMode, CompressionAlgorithm, ContentType, IntegrityVerifier,
    PayloadEncoder, PayloadFormat, RangeAwareOptimizer, ReliabilityMode, SensorType,
};

#[test]
fn test_range_optimizer() {
    let optimizer = RangeAwareOptimizer::new();

    let short_range_profile = optimizer.get_profile(CommunicationMode::ShortRange);
    assert_eq!(short_range_profile.max_payload_size, 1024 * 1024);

    let ultra_long_profile = optimizer.get_profile(CommunicationMode::UltraLongRange);
    assert_eq!(ultra_long_profile.max_payload_size, 128 * 1024);
    assert!(ultra_long_profile.priority_boost);
}

#[test]
fn test_long_range_profile() {
    let optimizer = RangeAwareOptimizer::new();
    let p = optimizer.get_profile(CommunicationMode::LongRange);
    assert_eq!(p.max_payload_size, 512 * 1024);
    assert_eq!(p.compression_level, 3);
    assert!(!p.priority_boost);
    assert_eq!(p.reliability_mode, ReliabilityMode::Acknowledged);
}

#[test]
fn test_payload_encoder_creation() {
    let encoder = PayloadEncoder::new();
    assert!(encoder.engine_count() > 0);
}

#[test]
fn test_chunk_manager_creation() {
    let manager = ChunkManager::new(1024);
    assert_eq!(manager.max_chunk_size(), 1024);
}

#[test]
fn test_integrity_verifier_creation() {
    let verifier = IntegrityVerifier::new();
    let data = b"test data";
    let hashes = verifier.generate_hashes(data).unwrap();
    assert!(!hashes.is_empty());
}

#[test]
fn test_compression_selection() {
    let encoder = PayloadEncoder::new();
    let sensor = ContentType::SensorData { sensor_type: SensorType::Lidar, precision: 3 };
    assert_eq!(encoder.select_compression_algorithm(&sensor, 5000, 100).unwrap(), CompressionAlgorithm::Lz4);
    assert_eq!(
        encoder.select_compression_algorithm(&sensor, 5000, 2 * 1024 * 1024).unwrap(),
        CompressionAlgorithm::Adaptive
    );
    assert_eq!(encoder.select_compression_algorithm(&ContentType::Text, 5000, 10).unwrap(), CompressionAlgorithm::Uncompressed);
}

#[test]
fn test_encode_payload_records_compression() {
    let encoder = PayloadEncoder::new();
    let sensor = ContentType::SensorData { sensor_type: SensorType::Imu, precision: 1 };
    let data = vec![1u8, 2, 3, 4];
    let encoded = encoder.encode_payload(&data, &sensor, 1000).unwrap();
    assert_eq!(encoded.data, data);
    assert_eq!(encoded.integrity_hashes.len(), 2);
    assert!(matches!(encoded.format, PayloadFormat::Compressed(CompressionAlgorithm::Lz4)));
    let info = encoded.compression_info.unwrap();
    assert_eq!(info.original_size, 4);
    assert_eq!(info.compression_ratio_permille, 1000);
}

#[test]
fn test_chunk_round_trip() {
    let manager = ChunkManager::new(4);
    let data: Vec<u8> = (0..10).collect();
    let session = [7u8; 32];
    let chunks = manager.create_chunks(&data, &session, 100).unwrap();
    assert_eq!(chunks.len(), 3);
    assert_eq!(chunks[2].payload, vec![8u8, 9]);
    assert_eq!(chunks[1].sequence_number, 101);
    let mut reversed = chunks.clone();
    reversed.reverse();
    let back = manager.reassemble_chunks(&reversed).unwrap();
    assert_eq!(back, data);
}

#[test]
fn test_reassembly_refuses_missing_chunk() {
    let manager = ChunkManager::new(4);
    let data: Vec<u8> = (0..10).collect();
    let chunks = manager.create_chunks(&data, &[1u8; 32], 0).unwrap();
    let partial = vec![chunks[0].clone(), chunks[2].clone()];
    assert_eq!(manager.reassemble_chunks(&partial), Err(ChunkingError::InvalidChunkOrder));
}

#[test]
fn test_reassembly_refuses_tampered_chunk() {
    let manager = ChunkManager::new(4);
    let data: Vec<u8> = (0..8).collect();
    let mut chunks = manager.create_chunks(&data, &[1u8; 32], 0).unwrap();
    chunks[1].payload[0] ^= 0xff;
    assert_eq!(manager.reassemble_chunks(&chunks), Err(ChunkingError::IntegrityCheckFailed));
}

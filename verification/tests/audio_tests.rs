use rgibberlink_core::audio::{
    audio_tones, decode_chunk_size, AudioBuffer, AudioConfig, AudioEngine, AudioError, AudioMode, AudioPoll, AudioTone,
};
use rgibberlink_core::laser::transmission::{frame_bits, pack_bits};

#[test]
fn test_audio_buffer_fifo_and_overflow() {
    let mut buffer: AudioBuffer<i32> = AudioBuffer::new(2);
    assert_eq!(buffer.push(1), Ok(()));
    assert_eq!(buffer.push(2), Ok(()));
    assert_eq!(buffer.push(3), Err(AudioError::BufferOverflow));
    assert_eq!(buffer.len(), 2);
    assert_eq!(buffer.pop(), Some(1));
    assert_eq!(buffer.pop(), Some(2));
    assert_eq!(buffer.pop(), None);
    assert_eq!(buffer.push_all(vec![4, 5, 6]), Err(AudioError::BufferOverflow));
    assert_eq!(buffer.drain(), vec![4, 5]);
    buffer.clear();
    assert_eq!(buffer.len(), 0);
}

#[test]
fn test_audio_engine_initialization() {
    let mut engine: AudioEngine<i16> = AudioEngine::new(0);
    assert!(!engine.get_status().initialized);
    assert_eq!(engine.send_data(vec![1, 2], 5), Err(AudioError::DeviceUnavailable));
    assert_eq!(engine.initialize(), Ok(()));
    let low = AudioConfig { sample_rate: 22050, ..AudioConfig::default() };
    let mut low_engine: AudioEngine<i16> = AudioEngine::with_config(low, 0);
    assert_eq!(low_engine.initialize(), Err(AudioError::InvalidParameters));
    let standard = AudioConfig { sample_rate: 8000, mode: AudioMode::Standard, ..AudioConfig::default() };
    assert_eq!(low_engine.update_config(standard), Ok(()));
    assert!(low_engine.get_status().initialized);
}

#[test]
fn test_audio_send_and_receive() {
    let mut engine: AudioEngine<i16> = AudioEngine::new(0);
    engine.force_initialize_for_testing();
    assert_eq!(engine.send_data(vec![1, 2, 3], 42), Ok(()));
    let status = engine.get_status();
    assert_eq!(status.transmit_buffer_size, 3);
    assert_eq!(status.last_transmission_ms, 42);
    assert!(matches!(engine.receive_data(100), AudioPoll::Wait));
    assert!(matches!(engine.receive_data(501), AudioPoll::Failed(AudioError::Timeout)));
    assert!(!engine.is_receiving());
    assert_eq!(engine.simulate_receive(vec![7, 8]), Ok(()));
    assert!(engine.is_receiving());
    match engine.receive_data(0) {
        AudioPoll::Samples(v) => assert_eq!(v, vec![7, 8]),
        other => panic!("unexpected {:?}", other),
    }
    assert!(!engine.is_receiving());
    engine.shutdown().unwrap();
    assert!(matches!(engine.receive_data(0), AudioPoll::Failed(AudioError::DeviceUnavailable)));
    assert_eq!(engine.get_status().transmit_buffer_size, 0);
}

#[test]
fn test_audio_tones() {
    let config = AudioConfig::default();
    let tones = audio_tones(&config, &[0x80]);
    assert_eq!(tones.len(), 8);
    assert_eq!(tones[0], AudioTone { frequency_hz: 20000, amplitude_permille: 500, samples: 441 });
    assert_eq!(tones[1], AudioTone { frequency_hz: 18000, amplitude_permille: 500, samples: 441 });
    let standard = AudioConfig { mode: AudioMode::Standard, ..config };
    let tones = audio_tones(&standard, &[0x01]);
    assert_eq!(tones[7], AudioTone { frequency_hz: 0, amplitude_permille: 800, samples: 882 });
    assert_eq!(tones[0].amplitude_permille, 200);
    assert_eq!(decode_chunk_size(&config), 441);
    assert_eq!(decode_chunk_size(&standard), 882);
}

#[test]
fn test_bit_packing_round_trip() {
    let data = vec![0x00u8, 0xFF, 0xA5, 0x3C, 0x81];
    assert_eq!(pack_bits(&frame_bits(&data)), data);
    let mut bits = frame_bits(&[0xF0]);
    bits.push(true);
    bits.push(false);
    assert_eq!(pack_bits(&bits), vec![0xF0]);
    assert!(pack_bits(&vec![true; 7]).is_empty());
}

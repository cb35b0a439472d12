use rgibberlink_core::gibberdot::{
    build_handshake_payload, build_response_payload, handshake_hmac_input, parse_handshake_payload, parse_response,
    text_to_morse, GibberDotConfig, LedColor, GibberDotEngine, GibberDotError, GibberDotState, LedPattern,
};

#[test]
fn test_gibberdot_initialization() {
    let engine = GibberDotEngine::new(0);
    assert_eq!(engine.get_state(), GibberDotState::Idle);
    assert_eq!(engine.get_config(), GibberDotConfig::default());
    assert_eq!(GibberDotConfig::default().handshake_timeout_ms, 280);
}

#[test]
fn test_hardware_availability_check() {
    assert!(GibberDotEngine::is_hardware_available());
}

#[test]
fn test_led_pattern_setting() {
    let engine = GibberDotEngine::new(0);
    assert!(engine.set_led_pattern(LedPattern::Error).is_ok());
    assert!(engine.set_led_pattern(LedPattern::Initiating).is_ok());
    assert!(engine.set_led_pattern(LedPattern::Success).is_ok());
    assert!(engine.set_led_pattern(LedPattern::MorseCode).is_ok());
}

#[test]
fn test_morse_code_conversion() {
    let pattern = text_to_morse("AB");
    assert!(!pattern.is_empty());
    assert!(pattern.iter().all(|&bit| bit <= 2));
    assert_eq!(pattern, vec![0, 1, 1, 0, 2]);
}

#[test]
fn test_morse_skips_non_letters() {
    assert_eq!(text_to_morse("c-z 9"), vec![1, 2, 0, 0]);
    assert!(text_to_morse("123").is_empty());
}

#[test]
fn test_reset_functionality() {
    let mut engine = GibberDotEngine::new(0);
    engine.confirm([5u8; 32]);
    assert_eq!(engine.get_state(), GibberDotState::Confirmed);
    engine.reset(10);
    assert_eq!(engine.get_state(), GibberDotState::Idle);
    assert!(engine.get_session_key().is_none());
}

#[test]
fn test_handshake_payload_layout() {
    let tag = [0xAAu8, 0xBB, 0xCC, 0xDD, 0xEE];
    let payload = build_handshake_payload(0x01020304, 0x1112131415161718, &tag);
    assert_eq!(
        payload,
        vec![1, 2, 3, 4, 0x11, 0x12, 0x13, 0x14, 0x15, 0x16, 0x17, 0x18, 0xAA, 0xBB, 0xCC, 0xDD]
    );
    let burst = parse_handshake_payload(&payload).unwrap();
    assert_eq!(burst.device_id, 0x01020304);
    assert_eq!(burst.nonce, 0x1112131415161718);
    assert_eq!(burst.tag, [0xAA, 0xBB, 0xCC, 0xDD]);
    assert_eq!(parse_handshake_payload(&payload[..15]), Err(GibberDotError::InvalidState));
}

#[test]
fn test_hmac_input_layout() {
    let input = handshake_hmac_input(7, 9, &[0xFF, 0xFE]);
    assert_eq!(input, vec![0, 0, 0, 7, 0, 0, 0, 0, 0, 0, 0, 9, 0xFF, 0xFE]);
}

#[test]
fn test_accept_handshake_checks_tag() {
    let engine = GibberDotEngine::new(0);
    let tag = [1u8, 2, 3, 4];
    let payload = build_handshake_payload(42, 43, &tag);
    assert!(engine.accept_handshake(&payload, &[1, 2, 3, 4, 99]).is_ok());
    assert_eq!(engine.accept_handshake(&payload, &[1, 2, 3, 5]), Err(GibberDotError::InvalidState));
}

#[test]
fn test_response_round_trip() {
    let key: Vec<u8> = (0..32).collect();
    let response = build_response_payload(0x0102030405060708, &key);
    assert_eq!(response.len(), 24);
    let (nonce, encrypted) = parse_response(&response).unwrap();
    assert_eq!(nonce, [1, 2, 3, 4, 5, 6, 7, 8]);
    assert_eq!(encrypted.to_vec(), key[..16].to_vec());
    assert_eq!(parse_response(&response[..23]), Err(GibberDotError::InvalidState));
}

#[test]
fn test_session_key_required() {
    let mut engine = GibberDotEngine::new(0);
    assert_eq!(engine.require_session_key(), Err(GibberDotError::InvalidState));
    assert!(engine.begin_listening(5).is_ok());
    assert_eq!(engine.get_state(), GibberDotState::Listening);
    engine.confirm([9u8; 32]);
    assert_eq!(engine.require_session_key(), Ok([9u8; 32]));
    assert_eq!(engine.time_since_last_activity(20), 15);
}

#[test]
fn test_transmit_morse_code_flashes() {
    let engine = GibberDotEngine::new(0);
    let flashes = engine.transmit_morse_code("Ab c!").unwrap();
    assert_eq!(
        flashes,
        vec![
            LedColor::Red,
            LedColor::Green,
            LedColor::Green,
            LedColor::Red,
            LedColor::Blue,
            LedColor::Green,
            LedColor::Blue,
            LedColor::Red,
        ]
    );
    assert!(engine.transmit_morse_code("123").unwrap().is_empty());
}

//! GibberDot mode: zero-radio key exchange between small devices over a
//! 40 kHz ultrasonic burst and LED acknowledgments, with a three-colour
//! Morse fallback.
//!
//! This module holds the protocol state, the framing of the 128-bit
//! handshake burst and of the session-key response, and the Morse pattern.
//! The transducer, LEDs and light sensor are driven from outside, as are the
//! device's key agreement and message authentication.

use vstd::prelude::*;
use vstd::string::StrSliceExecFns;
use crate::crypto::{be_bytes_u64, bytes_equal, push_be_u64, push_bytes};

verus! {

#[derive(Debug, Clone, PartialEq, Eq)]
pub enum GibberDotError {
    HardwareUnavailable(String),
    Timeout,
    CryptoError(String),
    InvalidState,
    ChannelDegraded,
    LowBattery,
}

/// LED patterns shown to the user.
#[derive(Debug, Clone, Copy, PartialEq, Eq, Structural)]
pub enum LedPattern {
    /// Red, fixed or blinking at 3 Hz: fatal error or low battery.
    Error,
    /// Blue, fixed (initiator) or blinking at 0.5 Hz (listener).
    Initiating,
    /// Six rapid green flashes or 3 s of green: success.
    Success,
    /// Morse sequence, the last fallback.
    MorseCode,
}

/// The LED a Morse flash lights.
#[derive(Debug, Clone, Copy, PartialEq, Eq, Structural)]
pub enum LedColor {
    Red,
    Green,
    Blue,
}

/// Milliseconds a Morse flash lasts: twelve flashes a second.
pub const MORSE_FLASH_MS: u64 = 83;

/// The LED of a flash state: 0 red, 1 green, 2 blue.
pub open spec fn flash_color(b: u8) -> LedColor {
    if b == 0 {
        LedColor::Red
    } else if b == 1 {
        LedColor::Green
    } else {
        LedColor::Blue
    }
}

#[derive(Debug, Clone, Copy, PartialEq, Eq, Structural)]
pub enum GibberDotState {
    Idle,
    Initiating,
    Listening,
    ExchangingKeys,
    Confirmed,
    Error,
}

#[derive(Debug, Clone, Copy, PartialEq, Eq, Structural)]
pub struct GibberDotConfig {
    /// Ultrasonic carrier frequency.
    pub ultrasonic_freq_hz: u32,
    /// Longest a handshake may take.
    pub handshake_timeout_ms: u64,
    /// Duration of an LED flash.
    pub led_flash_duration_ms: u64,
    /// Morse flashes per second.
    pub morse_rate_hz: u32,
    pub enable_optical_fallback: bool,
    pub low_power_mode: bool,
}

pub open spec fn default_gibberdot_config() -> GibberDotConfig {
    GibberDotConfig {
        ultrasonic_freq_hz: 40000,
        handshake_timeout_ms: 280,
        led_flash_duration_ms: 50,
        morse_rate_hz: 12,
        enable_optical_fallback: true,
        low_power_mode: true,
    }
}

impl Default for GibberDotConfig {
    /// 40 kHz, 280 ms handshakes, 50 ms flashes, 12 Morse flashes per second,
    /// optical fallback and low-power mode on.
    fn default() -> (r: Self)
        ensures
            r == default_gibberdot_config(),
    {
        GibberDotConfig {
            ultrasonic_freq_hz: 40000,
            handshake_timeout_ms: 280,
            led_flash_duration_ms: 50,
            morse_rate_hz: 12,
            enable_optical_fallback: true,
            low_power_mode: true,
        }
    }
}

// ---------------------------------------------------------------------------
// Framing
// ---------------------------------------------------------------------------

/// Big-endian bytes of a 32-bit integer.
pub open spec fn be_bytes_u32(x: u32) -> Seq<u8> {
    seq![(x >> 24u32) as u8, ((x >> 16u32) & 0xffu32) as u8, ((x >> 8u32) & 0xffu32) as u8, (x & 0xffu32) as u8]
}

/// The 32-bit integer whose big-endian bytes these are.
pub open spec fn be_u32_of(b: Seq<u8>) -> u32 {
    ((b[0] as u32) << 24u32) | ((b[1] as u32) << 16u32) | ((b[2] as u32) << 8u32) | (b[3] as u32)
}

/// The 64-bit integer whose big-endian bytes these are.
pub open spec fn be_u64_of(b: Seq<u8>) -> u64 {
    ((b[0] as u64) << 56u64) | ((b[1] as u64) << 48u64) | ((b[2] as u64) << 40u64) | ((b[3] as u64) << 32u64)
        | ((b[4] as u64) << 24u64) | ((b[5] as u64) << 16u64) | ((b[6] as u64) << 8u64) | (b[7] as u64)
}

proof fn lemma_be_u32_round_trip(x: u32)
    ensures
        be_u32_of(be_bytes_u32(x)) == x,
{
    let b = be_bytes_u32(x);
    let (b0, b1, b2, b3) = (b[0], b[1], b[2], b[3]);
    assert(b0 == (x >> 24u32) as u8 && b1 == ((x >> 16u32) & 0xffu32) as u8 && b2 == ((x >> 8u32) & 0xffu32) as u8
        && b3 == (x & 0xffu32) as u8);
    assert(((b0 as u32) << 24u32) | ((b1 as u32) << 16u32) | ((b2 as u32) << 8u32) | (b3 as u32) == x) by (bit_vector)
        requires
            b0 == (x >> 24u32) as u8,
            b1 == ((x >> 16u32) & 0xffu32) as u8,
            b2 == ((x >> 8u32) & 0xffu32) as u8,
            b3 == (x & 0xffu32) as u8;
}

proof fn lemma_be_u64_round_trip(x: u64)
    ensures
        be_u64_of(be_bytes_u64(x)) == x,
{
    let b = be_bytes_u64(x);
    let (b0, b1, b2, b3, b4, b5, b6, b7) = (b[0], b[1], b[2], b[3], b[4], b[5], b[6], b[7]);
    assert(b0 == ((x >> 56u64) & 0xffu64) as u8);
    assert(b1 == ((x >> 48u64) & 0xffu64) as u8);
    assert(b2 == ((x >> 40u64) & 0xffu64) as u8);
    assert(b3 == ((x >> 32u64) & 0xffu64) as u8);
    assert(b4 == ((x >> 24u64) & 0xffu64) as u8);
    assert(b5 == ((x >> 16u64) & 0xffu64) as u8);
    assert(b6 == ((x >> 8u64) & 0xffu64) as u8);
    assert(b7 == ((x >> 0u64) & 0xffu64) as u8);
    assert(((b0 as u64) << 56u64) | ((b1 as u64) << 48u64) | ((b2 as u64) << 40u64) | ((b3 as u64) << 32u64)
        | ((b4 as u64) << 24u64) | ((b5 as u64) << 16u64) | ((b6 as u64) << 8u64) | (b7 as u64) == x) by (bit_vector)
        requires
            b0 == ((x >> 56u64) & 0xffu64) as u8,
            b1 == ((x >> 48u64) & 0xffu64) as u8,
            b2 == ((x >> 40u64) & 0xffu64) as u8,
            b3 == ((x >> 32u64) & 0xffu64) as u8,
            b4 == ((x >> 24u64) & 0xffu64) as u8,
            b5 == ((x >> 16u64) & 0xffu64) as u8,
            b6 == ((x >> 8u64) & 0xffu64) as u8,
            b7 == ((x >> 0u64) & 0xffu64) as u8;
}

fn push_be_u32(out: &mut Vec<u8>, x: u32)
    ensures
        final(out)@ == old(out)@ + be_bytes_u32(x),
{
    out.push((x >> 24u32) as u8);
    out.push(((x >> 16u32) & 0xffu32) as u8);
    out.push(((x >> 8u32) & 0xffu32) as u8);
    out.push((x & 0xffu32) as u8);
    assert(out@ =~= old(out)@ + be_bytes_u32(x));
}

/// What the handshake burst authenticates: the device identifier and the
/// nonce, big-endian, followed by the public key.
pub open spec fn handshake_mac_input(device_id: u32, nonce: u64, public_key: Seq<u8>) -> Seq<u8> {
    be_bytes_u32(device_id) + be_bytes_u64(nonce) + public_key
}

/// The 128-bit handshake burst: identifier, nonce, and the first four bytes
/// of the authentication tag.
pub open spec fn handshake_payload(device_id: u32, nonce: u64, tag: Seq<u8>) -> Seq<u8> {
    be_bytes_u32(device_id) + be_bytes_u64(nonce) + tag.take(4)
}

/// The bytes the authentication tag of a handshake is computed over.
pub fn handshake_hmac_input(device_id: u32, nonce: u64, public_key: &[u8]) -> (r: Vec<u8>)
    ensures
        r@ == handshake_mac_input(device_id, nonce, public_key@),
{
    let mut out: Vec<u8> = Vec::new();
    push_be_u32(&mut out, device_id);
    push_be_u64(&mut out, nonce);
    push_bytes(&mut out, public_key);
    assert(out@ =~= handshake_mac_input(device_id, nonce, public_key@));
    out
}

/// The initiator's handshake burst.
pub fn build_handshake_payload(device_id: u32, nonce: u64, tag: &[u8]) -> (r: Vec<u8>)
    requires
        tag@.len() >= 4,
    ensures
        r@ == handshake_payload(device_id, nonce, tag@),
        r@.len() == 16,
{
    let mut out: Vec<u8> = Vec::new();
    push_be_u32(&mut out, device_id);
    push_be_u64(&mut out, nonce);
    let mut i: usize = 0;
    while i < 4
        invariant
            i <= 4,
            tag@.len() >= 4,
            out@ == be_bytes_u32(device_id) + be_bytes_u64(nonce) + tag@.take(i as int),
        decreases 4 - i,
    {
        out.push(tag[i]);
        i = i + 1;
        assert(out@ =~= be_bytes_u32(device_id) + be_bytes_u64(nonce) + tag@.take(i as int));
    }
    out
}

/// A handshake burst as received: identifier, nonce and truncated tag.
#[derive(Debug, Clone, Copy, PartialEq, Eq)]
pub struct HandshakeBurst {
    pub device_id: u32,
    pub nonce: u64,
    pub tag: [u8; 4],
}

/// Splits a received burst; anything but 16 bytes is refused.
pub fn parse_handshake_payload(payload: &[u8]) -> (r: Result<HandshakeBurst, GibberDotError>)
    ensures
        payload@.len() != 16 ==> r == Err::<HandshakeBurst, GibberDotError>(GibberDotError::InvalidState),
        payload@.len() == 16 ==> (r matches Ok(b) && b.device_id == be_u32_of(payload@.subrange(0, 4))
            && b.nonce == be_u64_of(payload@.subrange(4, 12)) && b.tag@ == payload@.subrange(12, 16)),
{
    if payload.len() != 16 {
        return Err(GibberDotError::InvalidState);
    }
    let device_id: u32 = ((payload[0] as u32) << 24u32) | ((payload[1] as u32) << 16u32) | ((payload[2] as u32) << 8u32)
        | (payload[3] as u32);
    let nonce: u64 = ((payload[4] as u64) << 56u64) | ((payload[5] as u64) << 48u64) | ((payload[6] as u64) << 40u64)
        | ((payload[7] as u64) << 32u64) | ((payload[8] as u64) << 24u64) | ((payload[9] as u64) << 16u64)
        | ((payload[10] as u64) << 8u64) | (payload[11] as u64);
    let tag: [u8; 4] = [payload[12], payload[13], payload[14], payload[15]];
    assert(tag@ =~= payload@.subrange(12, 16));
    Ok(HandshakeBurst { device_id, nonce, tag })
}

/// Whether a received burst carries the first four bytes of the expected
/// authentication tag.
pub fn tag_matches(burst: &HandshakeBurst, expected_tag: &[u8]) -> (r: bool)
    requires
        expected_tag@.len() >= 4,
    ensures
        r == (burst.tag@ == expected_tag@.take(4)),
{
    let t: &[u8] = burst.tag.as_slice();
    let mut e: Vec<u8> = Vec::new();
    let mut i: usize = 0;
    while i < 4
        invariant
            i <= 4,
            expected_tag@.len() >= 4,
            e@ == expected_tag@.take(i as int),
        decreases 4 - i,
    {
        e.push(expected_tag[i]);
        i = i + 1;
        assert(e@ =~= expected_tag@.take(i as int));
    }
    bytes_equal(t, e.as_slice())
}

/// The listener's response: its nonce, big-endian, and the first 16 bytes
/// of the encrypted session key.
pub open spec fn response_payload(nonce: u64, encrypted_key: Seq<u8>) -> Seq<u8> {
    be_bytes_u64(nonce) + encrypted_key.take(16)
}

pub fn build_response_payload(nonce: u64, encrypted_key: &[u8]) -> (r: Vec<u8>)
    requires
        encrypted_key@.len() >= 16,
    ensures
        r@ == response_payload(nonce, encrypted_key@),
        r@.len() == 24,
{
    let mut out: Vec<u8> = Vec::new();
    push_be_u64(&mut out, nonce);
    let mut i: usize = 0;
    while i < 16
        invariant
            i <= 16,
            encrypted_key@.len() >= 16,
            out@ == be_bytes_u64(nonce) + encrypted_key@.take(i as int),
        decreases 16 - i,
    {
        out.push(encrypted_key[i]);
        i = i + 1;
        assert(out@ =~= be_bytes_u64(nonce) + encrypted_key@.take(i as int));
    }
    out
}

/// Splits a response into the peer's nonce and the encrypted key; shorter
/// than 24 bytes is refused, and anything after the first 24 is ignored.
pub fn parse_response(response: &[u8]) -> (r: Result<([u8; 8], [u8; 16]), GibberDotError>)
    ensures
        response@.len() < 24 ==> r == Err::<([u8; 8], [u8; 16]), GibberDotError>(GibberDotError::InvalidState),
        response@.len() >= 24 ==> (r matches Ok((n, k)) && n@ == response@.subrange(0, 8)
            && k@ == response@.subrange(8, 24)),
{
    if response.len() < 24 {
        return Err(GibberDotError::InvalidState);
    }
    let mut nonce: [u8; 8] = [0u8; 8];
    let mut key: [u8; 16] = [0u8; 16];
    let mut i: usize = 0;
    while i < 8
        invariant
            i <= 8,
            response@.len() >= 24,
            forall|j: int| 0 <= j < i ==> nonce@[j] == response@[j],
        decreases 8 - i,
    {
        nonce.set(i, response[i]);
        i = i + 1;
    }
    let mut j: usize = 0;
    while j < 16
        invariant
            j <= 16,
            response@.len() >= 24,
            forall|m: int| 0 <= m < j ==> key@[m] == response@[8 + m],
        decreases 16 - j,
    {
        key.set(j, response[8 + j]);
        j = j + 1;
    }
    assert(nonce@ =~= response@.subrange(0, 8));
    assert(key@ =~= response@.subrange(8, 24));
    Ok((nonce, key))
}

/// What the listener reads back is what the initiator framed: the same
/// identifier, nonce and first four bytes of the tag.
pub proof fn lemma_handshake_round_trip(device_id: u32, nonce: u64, tag: Seq<u8>)
    requires
        tag.len() >= 4,
    ensures
        handshake_payload(device_id, nonce, tag).len() == 16,
        be_u32_of(handshake_payload(device_id, nonce, tag).subrange(0, 4)) == device_id,
        be_u64_of(handshake_payload(device_id, nonce, tag).subrange(4, 12)) == nonce,
        handshake_payload(device_id, nonce, tag).subrange(12, 16) == tag.take(4),
{
    let p = handshake_payload(device_id, nonce, tag);
    assert(p.subrange(0, 4) =~= be_bytes_u32(device_id));
    assert(p.subrange(4, 12) =~= be_bytes_u64(nonce));
    assert(p.subrange(12, 16) =~= tag.take(4));
    lemma_be_u32_round_trip(device_id);
    lemma_be_u64_round_trip(nonce);
}

// ---------------------------------------------------------------------------
// Morse fallback
// ---------------------------------------------------------------------------

pub open spec fn is_ascii_letter(c: char) -> bool {
    ('a' <= c && c <= 'z') || ('A' <= c && c <= 'Z')
}

/// Colour flashes (0 red, 1 green, 2 blue) for one letter: A is red-green,
/// B green-red-blue, C green-blue-red, and any other letter a single red.
pub open spec fn letter_flashes(c: char) -> Seq<u8> {
    if c == 'A' || c == 'a' {
        seq![0u8, 1]
    } else if c == 'B' || c == 'b' {
        seq![1u8, 0, 2]
    } else if c == 'C' || c == 'c' {
        seq![1u8, 2, 0]
    } else {
        seq![0u8]
    }
}

/// Flashes for a text: those of its ASCII letters, in order; other
/// characters are skipped.
pub open spec fn morse_pattern(text: Seq<char>) -> Seq<u8>
    decreases text.len(),
{
    if text.len() == 0 {
        seq![]
    } else {
        morse_pattern(text.drop_last()) + if is_ascii_letter(text.last()) {
            letter_flashes(text.last())
        } else {
            Seq::<u8>::empty()
        }
    }
}

/// The Morse flash pattern of a text.
pub fn text_to_morse(text: &str) -> (r: Vec<u8>)
    ensures
        r@ == morse_pattern(text@),
        forall|i: int| 0 <= i < r@.len() ==> r@[i] <= 2,
{
    let n = text.unicode_len();
    let mut out: Vec<u8> = Vec::new();
    let mut i: usize = 0;
    while i < n
        invariant
            n == text@.len(),
            i <= n,
            out@ == morse_pattern(text@.subrange(0, i as int)),
            forall|j: int| 0 <= j < out@.len() ==> out@[j] <= 2,
        decreases n - i,
    {
        let c = text.get_char(i);
        proof {
            let t = text@.subrange(0, i + 1);
            assert(t.drop_last() =~= text@.subrange(0, i as int));
        }
        if ('a' <= c && c <= 'z') || ('A' <= c && c <= 'Z') {
            if c == 'A' || c == 'a' {
                out.push(0);
                out.push(1);
            } else if c == 'B' || c == 'b' {
                out.push(1);
                out.push(0);
                out.push(2);
            } else if c == 'C' || c == 'c' {
                out.push(1);
                out.push(2);
                out.push(0);
            } else {
                out.push(0);
            }
        }
        i = i + 1;
        assert(out@ =~= morse_pattern(text@.subrange(0, i as int)));
    }
    assert(text@.subrange(0, n as int) =~= text@);
    out
}

// ---------------------------------------------------------------------------
// The engine
// ---------------------------------------------------------------------------

/// Protocol state of a GibberDot device: its configuration, where the
/// handshake stands, the session key once one is established, and when it
/// last acted.
pub struct GibberDotEngine {
    config: GibberDotConfig,
    state: GibberDotState,
    session_key: Option<[u8; 32]>,
    last_activity_ms: u64,
}

impl GibberDotEngine {
    pub closed spec fn configuration(&self) -> GibberDotConfig {
        self.config
    }

    pub closed spec fn current_state(&self) -> GibberDotState {
        self.state
    }

    pub closed spec fn key(&self) -> Option<[u8; 32]> {
        self.session_key
    }

    pub closed spec fn last_activity(&self) -> u64 {
        self.last_activity_ms
    }

    /// An idle engine with the default configuration.
    pub fn new(now_ms: u64) -> (r: Self)
        ensures
            r.configuration() == default_gibberdot_config(),
            r.current_state() == GibberDotState::Idle,
            r.key() is None,
            r.last_activity() == now_ms,
    {
        Self::with_config(GibberDotConfig::default(), now_ms)
    }

    pub fn with_config(config: GibberDotConfig, now_ms: u64) -> (r: Self)
        ensures
            r.configuration() == config,
            r.current_state() == GibberDotState::Idle,
            r.key() is None,
            r.last_activity() == now_ms,
    {
        GibberDotEngine { config, state: GibberDotState::Idle, session_key: None, last_activity_ms: now_ms }
    }

    /// Whether the transducer, LEDs, light sensor and battery are there;
    /// they are assumed to be.
    pub fn is_hardware_available() -> (r: bool)
        ensures
            r,
    {
        true
    }

    pub fn get_state(&self) -> (r: GibberDotState)
        ensures
            r == self.current_state(),
    {
        self.state
    }

    pub fn get_config(&self) -> (r: GibberDotConfig)
        ensures
            r == self.configuration(),
    {
        self.config
    }

    /// Shows an LED pattern; every pattern can be shown.
    pub fn set_led_pattern(&self, pattern: LedPattern) -> (r: Result<(), GibberDotError>)
        ensures
            r is Ok,
    {
        Ok(())
    }

    /// Starts a handshake as the sender.
    pub fn begin_initiation(&mut self, now_ms: u64) -> (r: Result<(), GibberDotError>)
        ensures
            r is Ok,
            final(self).current_state() == GibberDotState::Initiating,
            final(self).last_activity() == now_ms,
            final(self).key() == old(self).key(),
            final(self).configuration() == old(self).configuration(),
    {
        if !Self::is_hardware_available() {
            return Err(GibberDotError::HardwareUnavailable("GibberDot hardware not detected".to_owned()));
        }
        self.state = GibberDotState::Initiating;
        self.last_activity_ms = now_ms;
        Ok(())
    }

    /// Starts listening for a handshake.
    pub fn begin_listening(&mut self, now_ms: u64) -> (r: Result<(), GibberDotError>)
        ensures
            r is Ok,
            final(self).current_state() == GibberDotState::Listening,
            final(self).last_activity() == now_ms,
            final(self).key() == old(self).key(),
            final(self).configuration() == old(self).configuration(),
    {
        if !Self::is_hardware_available() {
            return Err(GibberDotError::HardwareUnavailable("GibberDot hardware not detected".to_owned()));
        }
        self.state = GibberDotState::Listening;
        self.last_activity_ms = now_ms;
        Ok(())
    }

    /// Checks a received burst against the tag the listener expects for it:
    /// refuses a burst of the wrong size or whose tag differs, and otherwise
    /// returns what it carries.
    pub fn accept_handshake(&self, payload: &[u8], expected_tag: &[u8]) -> (r: Result<HandshakeBurst, GibberDotError>)
        requires
            expected_tag@.len() >= 4,
        ensures
            payload@.len() != 16 ==> r == Err::<HandshakeBurst, GibberDotError>(GibberDotError::InvalidState),
            payload@.len() == 16 ==> {
                &&& (payload@.subrange(12, 16) == expected_tag@.take(4)) ==> (r matches Ok(b)
                    && b.device_id == be_u32_of(payload@.subrange(0, 4))
                    && b.nonce == be_u64_of(payload@.subrange(4, 12))
                    && b.tag@ == payload@.subrange(12, 16))
                &&& (payload@.subrange(12, 16) != expected_tag@.take(4)) ==> r == Err::<HandshakeBurst, GibberDotError>(
                    GibberDotError::InvalidState,
                )
            },
    {
        let burst = parse_handshake_payload(payload)?;
        if !tag_matches(&burst, expected_tag) {
            return Err(GibberDotError::InvalidState);
        }
        Ok(burst)
    }

    /// Completes a handshake with the established session key.
    pub fn confirm(&mut self, session_key: [u8; 32])
        ensures
            final(self).current_state() == GibberDotState::Confirmed,
            final(self).key() == Some(session_key),
            final(self).last_activity() == old(self).last_activity(),
            final(self).configuration() == old(self).configuration(),
    {
        self.session_key = Some(session_key);
        self.state = GibberDotState::Confirmed;
    }

    pub fn get_session_key(&self) -> (r: Option<[u8; 32]>)
        ensures
            r == self.key(),
    {
        self.session_key
    }

    /// The session key that encryption and decryption use; without one
    /// they are refused.
    pub fn require_session_key(&self) -> (r: Result<[u8; 32], GibberDotError>)
        ensures
            self.key() matches Some(k) ==> r == Ok::<[u8; 32], GibberDotError>(k),
            self.key() is None ==> r == Err::<[u8; 32], GibberDotError>(GibberDotError::InvalidState),
    {
        match self.session_key {
            Some(k) => Ok(k),
            None => Err(GibberDotError::InvalidState),
        }
    }

    /// Flashes a message in Morse code: its flash pattern, each flash on the
    /// LED of its state (red, green, blue) for `MORSE_FLASH_MS`.
    pub fn transmit_morse_code(&self, message: &str) -> (r: Result<Vec<LedColor>, GibberDotError>)
        ensures
            r is Ok,
            r->Ok_0@ == morse_pattern(message@).map_values(|b: u8| flash_color(b)),
    {
        let _ = self.set_led_pattern(LedPattern::MorseCode);
        let pattern = text_to_morse(message);
        let mut out: Vec<LedColor> = Vec::new();
        let mut i: usize = 0;
        while i < pattern.len()
            invariant
                i <= pattern@.len(),
                forall|j: int| 0 <= j < pattern@.len() ==> pattern@[j] <= 2,
                out@ == pattern@.take(i as int).map_values(|b: u8| flash_color(b)),
            decreases pattern@.len() - i,
        {
            let color = if pattern[i] == 0 {
                LedColor::Red
            } else if pattern[i] == 1 {
                LedColor::Green
            } else {
                LedColor::Blue
            };
            out.push(color);
            assert(out@ =~= pattern@.take(i + 1).map_values(|b: u8| flash_color(b)));
            i = i + 1;
        }
        assert(pattern@.take(pattern@.len() as int) =~= pattern@);
        Ok(out)
    }

    /// Time since the last activity; zero if the clock went back.
    pub fn time_since_last_activity(&self, now_ms: u64) -> (r: u64)
        ensures
            r == (if now_ms >= self.last_activity() { (now_ms - self.last_activity()) as u64 } else { 0 }),
    {
        if now_ms >= self.last_activity_ms {
            now_ms - self.last_activity_ms
        } else {
            0
        }
    }

    /// Back to idle, without a session key.
    pub fn reset(&mut self, now_ms: u64)
        ensures
            final(self).current_state() == GibberDotState::Idle,
            final(self).key() is None,
            final(self).last_activity() == now_ms,
            final(self).configuration() == old(self).configuration(),
    {
        self.state = GibberDotState::Idle;
        self.session_key = None;
        self.last_activity_ms = now_ms;
    }
}

} // verus!

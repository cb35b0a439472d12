//! How encoded laser frames become light: the bit stream of a frame, most
//! significant bit first, and the timed intensity steps of on-off keying,
//! frequency-shift keying, Manchester coding and pulse-width modulation.

use vstd::prelude::*;

verus! {

/// One step of a transmission: hold the laser at an intensity (per-mille of
/// the effective power limit) for a time; `frequency_hz` is the keying
/// frequency of a frequency-shift step and zero otherwise.
#[derive(Debug, Clone, Copy, PartialEq, Eq, Structural)]
pub struct LaserStep {
    pub intensity_permille: u32,
    pub frequency_hz: u32,
    pub duration_us: u64,
}

/// What the hardware is to do with a frame: play intensity steps, or
/// project the encoded frame as a QR code.
#[derive(Debug, Clone, PartialEq, Eq)]
pub enum TransmissionPlan {
    Steps(Vec<LaserStep>),
    QrProjection(Vec<u8>),
}

/// Bit `k` of `data`, counting from the most significant bit of the first byte.
pub open spec fn bit_of(data: Seq<u8>, k: int) -> bool {
    data[k / 8] & (1u8 << ((7 - k % 8) as u8)) != 0
}

/// The bits of `data`, most significant first.
pub open spec fn bits_of(data: Seq<u8>) -> Seq<bool> {
    Seq::new(data.len() * 8, |k: int| bit_of(data, k))
}

/// The bits of `data`, most significant bit of each byte first.
pub fn frame_bits(data: &[u8]) -> (r: Vec<bool>)
    ensures
        r@ == bits_of(data@),
{
    let mut out: Vec<bool> = Vec::new();
    let mut i: usize = 0;
    while i < data.len()
        invariant
            i <= data@.len(),
            out@.len() == 8 * i,
            forall|k: int| 0 <= k < out@.len() ==> out@[k] == #[trigger] bit_of(data@, k),
        decreases data@.len() - i,
    {
        let byte = data[i];
        let mut j: u8 = 0;
        while j < 8
            invariant
                i < data@.len(),
                byte == data@[i as int],
                j <= 8,
                out@.len() == 8 * i + j,
                forall|k: int| 0 <= k < out@.len() ==> out@[k] == #[trigger] bit_of(data@, k),
            decreases 8 - j,
        {
            let on = byte & (1u8 << (7 - j)) != 0;
            proof {
                let k = 8 * i + j;
                assert(k / 8 == i as int && k % 8 == j as int) by (nonlinear_arith)
                    requires k == 8 * i + j, 0 <= j < 8, i >= 0;
                assert(on == bit_of(data@, k));
            }
            out.push(on);
            j = j + 1;
        }
        i = i + 1;
    }
    assert(out@ =~= bits_of(data@));
    out
}

/// On-off keying: each bit held for one bit period, on for a one.
pub open spec fn ook_seq(bits: Seq<bool>, period_us: u64) -> Seq<LaserStep> {
    Seq::new(bits.len(), |k: int| LaserStep {
        intensity_permille: if bits[k] { 1000u32 } else { 0u32 },
        frequency_hz: 0,
        duration_us: period_us,
    })
}

/// Frequency-shift keying: each bit a full-intensity period keyed at
/// 1.5 kHz for a one and 1 kHz for a zero.
pub open spec fn fsk_seq(bits: Seq<bool>, period_us: u64) -> Seq<LaserStep> {
    Seq::new(bits.len(), |k: int| LaserStep {
        intensity_permille: 1000,
        frequency_hz: if bits[k] { 1500u32 } else { 1000u32 },
        duration_us: period_us,
    })
}

/// Manchester coding: each bit two half periods, high then low for a one
/// and low then high for a zero.
pub open spec fn manchester_seq(bits: Seq<bool>, half_us: u64) -> Seq<LaserStep> {
    Seq::new(bits.len() * 2, |k: int| LaserStep {
        intensity_permille: if bits[k / 2] == (k % 2 == 0) { 1000u32 } else { 0u32 },
        frequency_hz: 0,
        duration_us: half_us,
    })
}

/// Time a byte keeps the laser on in a pulse-width period: the period
/// scaled by the byte's share of 255.
pub open spec fn pwm_on_us(byte: u8, period_us: u64) -> int {
    period_us * byte / 255
}

/// Pulse-width modulation: each byte an on pulse of its share of the period,
/// then off for the rest.
pub open spec fn pwm_seq(data: Seq<u8>, period_us: u64) -> Seq<LaserStep> {
    Seq::new(data.len() * 2, |k: int| {
        let on = pwm_on_us(data[k / 2], period_us);
        if k % 2 == 0 {
            LaserStep { intensity_permille: 1000, frequency_hz: 0, duration_us: on as u64 }
        } else {
            LaserStep { intensity_permille: 0, frequency_hz: 0, duration_us: (period_us - on) as u64 }
        }
    })
}

pub fn ook_steps(bits: &Vec<bool>, period_us: u64) -> (r: Vec<LaserStep>)
    ensures
        r@ == ook_seq(bits@, period_us),
{
    let mut out: Vec<LaserStep> = Vec::new();
    let mut i: usize = 0;
    while i < bits.len()
        invariant
            i <= bits@.len(),
            out@ == ook_seq(bits@, period_us).take(i as int),
        decreases bits@.len() - i,
    {
        let intensity: u32 = if bits[i] { 1000 } else { 0 };
        out.push(LaserStep { intensity_permille: intensity, frequency_hz: 0, duration_us: period_us });
        assert(out@ =~= ook_seq(bits@, period_us).take(i + 1));
        i = i + 1;
    }
    assert(out@ =~= ook_seq(bits@, period_us));
    out
}

pub fn fsk_steps(bits: &Vec<bool>, period_us: u64) -> (r: Vec<LaserStep>)
    ensures
        r@ == fsk_seq(bits@, period_us),
{
    let mut out: Vec<LaserStep> = Vec::new();
    let mut i: usize = 0;
    while i < bits.len()
        invariant
            i <= bits@.len(),
            out@ == fsk_seq(bits@, period_us).take(i as int),
        decreases bits@.len() - i,
    {
        let frequency: u32 = if bits[i] { 1500 } else { 1000 };
        out.push(LaserStep { intensity_permille: 1000, frequency_hz: frequency, duration_us: period_us });
        assert(out@ =~= fsk_seq(bits@, period_us).take(i + 1));
        i = i + 1;
    }
    assert(out@ =~= fsk_seq(bits@, period_us));
    out
}

pub fn manchester_steps(bits: &Vec<bool>, half_us: u64) -> (r: Vec<LaserStep>)
    ensures
        r@ == manchester_seq(bits@, half_us),
{
    let mut out: Vec<LaserStep> = Vec::new();
    let mut i: usize = 0;
    while i < bits.len()
        invariant
            i <= bits@.len(),
            out@.len() == 2 * i,
            forall|k: int| 0 <= k < out@.len() ==> out@[k] == #[trigger] manchester_seq(bits@, half_us)[k],
        decreases bits@.len() - i,
    {
        let (first, second): (u32, u32) = if bits[i] { (1000, 0) } else { (0, 1000) };
        proof {
            let k0 = 2 * i as int;
            assert(k0 / 2 == i as int && k0 % 2 == 0 && (k0 + 1) / 2 == i as int && (k0 + 1) % 2 == 1) by (nonlinear_arith)
                requires k0 == 2 * i, i >= 0;
        }
        out.push(LaserStep { intensity_permille: first, frequency_hz: 0, duration_us: half_us });
        out.push(LaserStep { intensity_permille: second, frequency_hz: 0, duration_us: half_us });
        i = i + 1;
    }
    assert(out@ =~= manchester_seq(bits@, half_us));
    out
}

pub fn pwm_steps(data: &[u8], period_us: u64) -> (r: Vec<LaserStep>)
    ensures
        r@ == pwm_seq(data@, period_us),
{
    let mut out: Vec<LaserStep> = Vec::new();
    let mut i: usize = 0;
    while i < data.len()
        invariant
            i <= data@.len(),
            out@.len() == 2 * i,
            forall|k: int| 0 <= k < out@.len() ==> out@[k] == #[trigger] pwm_seq(data@, period_us)[k],
        decreases data@.len() - i,
    {
        let byte = data[i];
        assert((period_us as u128) * (byte as u128) <= 0xffff_ffff_ffff_ffffu128 * 255) by (nonlinear_arith)
            requires byte <= 255;
        let on128 = (period_us as u128) * (byte as u128) / 255;
        assert(on128 <= period_us) by (nonlinear_arith)
            requires on128 == (period_us as u128) * (byte as u128) / 255, byte <= 255;
        let on = on128 as u64;
        proof {
            let k0 = 2 * i as int;
            assert(k0 / 2 == i as int && k0 % 2 == 0 && (k0 + 1) / 2 == i as int && (k0 + 1) % 2 == 1) by (nonlinear_arith)
                requires k0 == 2 * i, i >= 0;
        }
        out.push(LaserStep { intensity_permille: 1000, frequency_hz: 0, duration_us: on });
        out.push(LaserStep { intensity_permille: 0, frequency_hz: 0, duration_us: period_us - on });
        i = i + 1;
    }
    assert(out@ =~= pwm_seq(data@, period_us));
    out
}

/// Manchester coding is self-clocking: the two halves of every bit period
/// differ, so each period carries a transition.
pub proof fn lemma_manchester_transitions(bits: Seq<bool>, half_us: u64, k: int)
    requires
        0 <= k < bits.len(),
    ensures
        manchester_seq(bits, half_us)[2 * k].intensity_permille != manchester_seq(bits, half_us)[2 * k + 1].intensity_permille,
        manchester_seq(bits, half_us)[2 * k].intensity_permille == (if bits[k] { 1000u32 } else { 0u32 }),
{
    assert((2 * k) / 2 == k && (2 * k) % 2 == 0 && (2 * k + 1) / 2 == k && (2 * k + 1) % 2 == 1) by (nonlinear_arith)
        requires 0 <= k;
}

/// Every bit of a frame is a step of its on-off keying, on exactly for a one.
pub proof fn lemma_ook_follows_bits(data: Seq<u8>, period_us: u64, k: int)
    requires
        0 <= k < data.len() * 8,
    ensures
        ook_seq(bits_of(data), period_us)[k].intensity_permille == (if bit_of(data, k) { 1000u32 } else { 0u32 }),
        ook_seq(bits_of(data), period_us).len() == data.len() * 8,
{
}

/// Value of `n` bits of `bits` from `start`, most significant first.
pub open spec fn bits_value(bits: Seq<bool>, start: int, n: nat) -> int
    decreases n,
{
    if n == 0 {
        0
    } else {
        2 * bits_value(bits, start, (n - 1) as nat) + if bits[start + n - 1] { 1int } else { 0int }
    }
}

pub open spec fn two_pow(n: nat) -> int
    decreases n,
{
    if n == 0 { 1 } else { 2 * two_pow((n - 1) as nat) }
}

/// Whole bytes packed from bits, eight at a time, most significant first; a
/// trailing partial byte is dropped.
pub open spec fn packed_bytes(bits: Seq<bool>) -> Seq<u8> {
    Seq::new(bits.len() / 8, |j: int| bits_value(bits, 8 * j, 8) as u8)
}

proof fn lemma_bits_value_bound(bits: Seq<bool>, start: int, n: nat)
    ensures
        0 <= bits_value(bits, start, n) < two_pow(n),
    decreases n,
{
    if n > 0 {
        lemma_bits_value_bound(bits, start, (n - 1) as nat);
    }
}

/// Packs received bits into bytes, eight at a time, most significant first;
/// a trailing partial byte is dropped.
pub fn pack_bits(bits: &Vec<bool>) -> (r: Vec<u8>)
    ensures
        r@ == packed_bytes(bits@),
{
    let n = bits.len() / 8;
    let mut out: Vec<u8> = Vec::new();
    let mut j: usize = 0;
    while j < n
        invariant
            n == bits@.len() / 8,
            j <= n,
            out@.len() == j,
            forall|k: int| 0 <= k < j ==> out@[k] == #[trigger] packed_bytes(bits@)[k],
        decreases n - j,
    {
        assert(8 * j + 8 <= bits@.len()) by (nonlinear_arith)
            requires j < n, n == bits@.len() / 8;
        assert(bits@.len() == bits.len());
        let base = 8 * j;
        let mut cur: u8 = 0;
        let mut i: usize = 0;
        while i < 8
            invariant
                base == 8 * j,
                base + 8 <= bits@.len(),
                i <= 8,
                cur as int == bits_value(bits@, base as int, i as nat),
            decreases 8 - i,
        {
            proof {
                lemma_bits_value_bound(bits@, base as int, i as nat);
                assert(two_pow(i as nat) <= 128) by {
                    reveal_with_fuel(two_pow, 8);
                }
            }
            let b: u8 = if bits[base + i] { 1 } else { 0 };
            cur = cur * 2 + b;
            i = i + 1;
        }
        out.push(cur);
        j = j + 1;
    }
    assert(out@ =~= packed_bytes(bits@));
    out
}

proof fn lemma_byte_bits(b: u8)
    ensures
        b as int == 128 * (if b & (1u8 << 7u8) != 0 { 1int } else { 0int }) + 64 * (if b & (1u8 << 6u8) != 0 { 1int } else { 0int })
            + 32 * (if b & (1u8 << 5u8) != 0 { 1int } else { 0int }) + 16 * (if b & (1u8 << 4u8) != 0 { 1int } else { 0int })
            + 8 * (if b & (1u8 << 3u8) != 0 { 1int } else { 0int }) + 4 * (if b & (1u8 << 2u8) != 0 { 1int } else { 0int })
            + 2 * (if b & (1u8 << 1u8) != 0 { 1int } else { 0int }) + (if b & (1u8 << 0u8) != 0 { 1int } else { 0int }),
{
    assert(b == 128 * (if b & (1u8 << 7u8) != 0 { 1u8 } else { 0u8 }) + 64 * (if b & (1u8 << 6u8) != 0 { 1u8 } else { 0u8 })
        + 32 * (if b & (1u8 << 5u8) != 0 { 1u8 } else { 0u8 }) + 16 * (if b & (1u8 << 4u8) != 0 { 1u8 } else { 0u8 })
        + 8 * (if b & (1u8 << 3u8) != 0 { 1u8 } else { 0u8 }) + 4 * (if b & (1u8 << 2u8) != 0 { 1u8 } else { 0u8 })
        + 2 * (if b & (1u8 << 1u8) != 0 { 1u8 } else { 0u8 }) + (if b & (1u8 << 0u8) != 0 { 1u8 } else { 0u8 })) by (bit_vector);
}

/// Packing the bits of a frame gives the frame back: what a receiver
/// decodes from a transmitted bit stream is exactly what was sent.
pub proof fn lemma_bits_round_trip(data: Seq<u8>)
    ensures
        packed_bytes(bits_of(data)) == data,
{
    let bits = bits_of(data);
    assert(bits.len() / 8 == data.len()) by (nonlinear_arith)
        requires bits.len() == data.len() * 8;
    assert forall|j: int| 0 <= j < data.len() implies #[trigger] packed_bytes(bits)[j] == data[j] by {
        let b = data[j];
        assert forall|i: int| 0 <= i < 8 implies #[trigger] bits[8 * j + i] == (b & (1u8 << ((7 - i) as u8)) != 0) by {
            assert((8 * j + i) / 8 == j && (8 * j + i) % 8 == i) by (nonlinear_arith)
                requires 0 <= i < 8, 0 <= j;
            assert(8 * j + i < data.len() * 8) by (nonlinear_arith)
                requires 0 <= i < 8, 0 <= j < data.len();
        }
        reveal_with_fuel(bits_value, 9);
        assert(bits[8 * j + 0] == (b & (1u8 << 7u8) != 0));
        assert(bits[8 * j + 1] == (b & (1u8 << 6u8) != 0));
        assert(bits[8 * j + 2] == (b & (1u8 << 5u8) != 0));
        assert(bits[8 * j + 3] == (b & (1u8 << 4u8) != 0));
        assert(bits[8 * j + 4] == (b & (1u8 << 3u8) != 0));
        assert(bits[8 * j + 5] == (b & (1u8 << 2u8) != 0));
        assert(bits[8 * j + 6] == (b & (1u8 << 1u8) != 0));
        assert(bits[8 * j + 7] == (b & (1u8 << 0u8) != 0));
        lemma_byte_bits(b);
    }
    assert(packed_bytes(bits) =~= data);
}

} // verus!

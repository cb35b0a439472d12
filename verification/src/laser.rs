//! Laser channel: error types, modulation schemes, power profiles, the
//! Reed-Solomon framing of laser frames, and the adaptive choice of
//! modulation and power.

use vstd::prelude::*;
use vstd::seq_lib::lemma_flatten_concat;
use crate::optical_ecc::{
    AdaptiveECCConfig, OpticalECC, OpticalQualityMetrics, convolutional_form, interleaved_form,
};
use crate::range_detector::{RangeDetectorCategory, RangeMeasurement};
use crate::security::WeatherCondition;

pub mod control;
pub mod transmission;

use crate::laser::transmission::{
    bits_of, fsk_seq, fsk_steps, frame_bits, manchester_seq, manchester_steps, ook_seq, ook_steps, pwm_seq, pwm_steps, LaserStep,
    TransmissionPlan,
};

verus! {

/// Errors of the laser channel.
#[derive(Debug, Clone, Copy, PartialEq, Eq, Structural)]
pub enum LaserError {
    HardwareUnavailable,
    InvalidModulation,
    TransmissionFailed,
    ReceptionFailed,
    SafetyViolation,
    AlignmentLost,
    DataCorruption,
    Timeout,
}

pub open spec fn laser_error_text(e: LaserError) -> Seq<char> {
    match e {
        LaserError::HardwareUnavailable => "Hardware not available"@,
        LaserError::InvalidModulation => "Invalid modulation scheme"@,
        LaserError::TransmissionFailed => "Transmission failed"@,
        LaserError::ReceptionFailed => "Reception failed"@,
        LaserError::SafetyViolation => "Safety violation"@,
        LaserError::AlignmentLost => "Alignment lost"@,
        LaserError::DataCorruption => "Data corruption"@,
        LaserError::Timeout => "Timeout"@,
    }
}

impl LaserError {
    /// The error's message.
    pub fn message(&self) -> (r: String)
        ensures
            r@ == laser_error_text(*self),
    {
        match self {
            LaserError::HardwareUnavailable => "Hardware not available".to_owned(),
            LaserError::InvalidModulation => "Invalid modulation scheme".to_owned(),
            LaserError::TransmissionFailed => "Transmission failed".to_owned(),
            LaserError::ReceptionFailed => "Reception failed".to_owned(),
            LaserError::SafetyViolation => "Safety violation".to_owned(),
            LaserError::AlignmentLost => "Alignment lost".to_owned(),
            LaserError::DataCorruption => "Data corruption".to_owned(),
            LaserError::Timeout => "Timeout".to_owned(),
        }
    }
}

#[derive(Debug, Clone, Copy, PartialEq, Eq, Structural)]
pub enum LaserType {
    Visible,
    Infrared,
}

#[derive(Debug, Clone, Copy, PartialEq, Eq, Structural)]
pub enum ModulationScheme {
    /// On-off keying: close range, high speed.
    Ook,
    /// Pulse-width modulation: medium range.
    Pwm,
    /// Dynamic QR projection: long range, robust.
    QrProjection,
    /// Frequency-shift keying.
    Fsk,
    /// Self-clocking Manchester coding for noisy channels.
    Manchester,
}

// ---------------------------------------------------------------------------
// Reed-Solomon framing
// ---------------------------------------------------------------------------

#[verifier::external_type_specification]
#[verifier::external_body]
pub struct ExReedSolomonError(reed_solomon_erasure::Error);

/// Data shards of a laser frame.
pub const FRAME_DATA_SHARDS: usize = 16;

/// Parity shards of a laser frame.
pub const FRAME_PARITY_SHARDS: usize = 4;

/// Total shards of a laser frame.
pub const FRAME_TOTAL_SHARDS: usize = 20;

/// The parity shards that Reed-Solomon over GF(2^8) computes for data shards.
pub uninterp spec fn rs_parity(data_shards: usize, parity_shards: usize, data: Seq<Seq<u8>>) -> Seq<Seq<u8>>;

/// The shards that Reed-Solomon over GF(2^8) recovers for a partial set of shards.
pub uninterp spec fn rs_recovered(data_shards: usize, parity_shards: usize, shards: Seq<Option<Seq<u8>>>) -> Seq<Seq<u8>>;

pub open spec fn shards_view(shards: Seq<Vec<u8>>) -> Seq<Seq<u8>> {
    shards.map_values(|v: Vec<u8>| v@)
}

pub open spec fn opt_shards_view(shards: Seq<Option<Vec<u8>>>) -> Seq<Option<Seq<u8>>> {
    shards.map_values(|o: Option<Vec<u8>>| match o {
        Some(v) => Some(v@),
        None => None,
    })
}

/// Shard counts that make a Reed-Solomon code over GF(2^8).
pub open spec fn rs_counts_valid(data_shards: usize, parity_shards: usize) -> bool {
    data_shards > 0 && parity_shards > 0 && data_shards + parity_shards <= 256
}

/// Shards that the encoder accepts: one per slot, the first non-empty, all of one length.
pub open spec fn rs_encodable(data_shards: usize, parity_shards: usize, shards: Seq<Seq<u8>>) -> bool {
    &&& rs_counts_valid(data_shards, parity_shards)
    &&& shards.len() == data_shards + parity_shards
    &&& shards[0].len() > 0
    &&& forall|i: int| 0 <= i < shards.len() ==> #[trigger] shards[i].len() == shards[0].len()
}

/// Number of present shards.
pub open spec fn present_count(shards: Seq<Option<Seq<u8>>>) -> nat
    decreases shards.len(),
{
    if shards.len() == 0 {
        0
    } else {
        present_count(shards.drop_last()) + if shards.last() is Some {
            1nat
        } else {
            0nat
        }
    }
}

/// Shards that the decoder accepts: one per slot, every present shard
/// non-empty and of one length, and at least as many present as there are
/// data shards.
pub open spec fn rs_reconstructible(data_shards: usize, parity_shards: usize, shards: Seq<Option<Seq<u8>>>) -> bool {
    &&& rs_counts_valid(data_shards, parity_shards)
    &&& shards.len() == data_shards + parity_shards
    &&& forall|i: int| 0 <= i < shards.len() && (#[trigger] shards[i]) is Some ==> shards[i]->0.len() > 0
    &&& forall|i: int, j: int| 0 <= i < shards.len() && 0 <= j < shards.len() && (#[trigger] shards[i]) is Some && (#[trigger] shards[j]) is Some ==> shards[i]->0.len() == shards[j]->0.len()
    &&& present_count(shards) >= data_shards
}

/// Builds the Reed-Solomon code of `ReedSolomon::<galois_8::Field>::new` for
/// the shard counts and calls its `encode` on the shards. The counts must not
/// overflow when added, as `new` adds them. The contract claims:
/// the call succeeds exactly when the counts form a code and the shards fill
/// every slot with one non-empty length; on success the data shards are kept
/// and the parity slots hold `rs_parity` of the data shards; on failure
/// nothing is touched.
#[verifier::external_body]
fn rs_encode(data_shards: usize, parity_shards: usize, shards: &mut Vec<Vec<u8>>) -> (r: Result<(), reed_solomon_erasure::Error>)
    requires
        data_shards + parity_shards <= usize::MAX,
    ensures
        r is Ok <==> rs_encodable(data_shards, parity_shards, shards_view(old(shards)@)),
        r is Err ==> shards_view(final(shards)@) == shards_view(old(shards)@),
        r is Ok ==> final(shards)@.len() == old(shards)@.len(),
        r is Ok ==> forall|i: int| 0 <= i < old(shards)@.len() ==> (#[trigger] final(shards)@[i])@.len() == old(shards)@[i]@.len(),
        r is Ok ==> shards_view(final(shards)@) == shards_view(old(shards)@).take(data_shards as int) + rs_parity(
            data_shards,
            parity_shards,
            shards_view(old(shards)@).take(data_shards as int),
        ),
{
    let codec = reed_solomon_erasure::galois_8::ReedSolomon::new(data_shards, parity_shards)?;
    codec.encode(shards)
}

/// Builds the Reed-Solomon code of `ReedSolomon::<galois_8::Field>::new` for
/// the shard counts and calls its `reconstruct` on the shards. The counts
/// must not overflow when added, as `new` adds them. The contract claims:
/// the call succeeds exactly when the counts form a code, every slot is there, present shards are non-empty and of one length and at least the
/// data shards' number are present; on success present shards are kept and
/// missing ones hold `rs_recovered`; on failure nothing is touched.
#[verifier::external_body]
fn rs_reconstruct(data_shards: usize, parity_shards: usize, shards: &mut Vec<Option<Vec<u8>>>) -> (r: Result<(), reed_solomon_erasure::Error>)
    requires
        data_shards + parity_shards <= usize::MAX,
    ensures
        r is Ok <==> rs_reconstructible(data_shards, parity_shards, opt_shards_view(old(shards)@)),
        r is Err ==> opt_shards_view(final(shards)@) == opt_shards_view(old(shards)@),
        r is Ok ==> opt_shards_view(final(shards)@) == Seq::new(
            old(shards)@.len(),
            |i: int| match opt_shards_view(old(shards)@)[i] {
                Some(s) => Some(s),
                None => Some(rs_recovered(data_shards, parity_shards, opt_shards_view(old(shards)@))[i]),
            },
        ),
{
    let codec = reed_solomon_erasure::galois_8::ReedSolomon::new(data_shards, parity_shards)?;
    codec.reconstruct(shards.as_mut_slice())
}

/// `n` zero bytes.
pub open spec fn zeros(n: nat) -> Seq<u8> {
    Seq::new(n, |i: int| 0u8)
}

/// The piece of `data` for shard `i` of size `size`, padded with zeros to `size`.
pub open spec fn padded_piece(data: Seq<u8>, i: int, size: int) -> Seq<u8> {
    let start = i * size;
    let end = if start + size <= data.len() { start + size } else { data.len() as int };
    data.subrange(start, end) + zeros((size - (end - start)) as nat)
}

/// The unpadded piece of `data` for shard `i` of size `size`.
pub open spec fn piece(data: Seq<u8>, i: int, size: int) -> Option<Seq<u8>> {
    let start = i * size;
    let end = if start + size <= data.len() { start + size } else { data.len() as int };
    Some(data.subrange(start, end))
}

/// Shard size for framing `len` bytes into 16 data shards.
pub open spec fn encode_shard_size(len: int) -> int {
    (len + 15) / 16
}

/// Shard size for reading `len` bytes as 20 shards.
pub open spec fn decode_shard_size(len: int) -> int {
    (len + 19) / 20
}

/// The 16 zero-padded data shards of a frame.
pub open spec fn frame_data_shards(data: Seq<u8>) -> Seq<Seq<u8>> {
    Seq::new(16, |i: int| padded_piece(data, i, encode_shard_size(data.len() as int)))
}

/// A Reed-Solomon frame: the data shards, then their four parity shards,
/// concatenated.
pub open spec fn rs_frame(data: Seq<u8>) -> Seq<u8> {
    (frame_data_shards(data) + rs_parity(16, 4, frame_data_shards(data))).flatten()
}

/// Frame lengths whose shard pieces all start inside the data.
pub open spec fn frame_encodable_len(len: int) -> bool {
    15 * encode_shard_size(len) <= len
}

/// Received lengths whose 20 pieces all start inside the data.
pub open spec fn frame_decodable_len(len: int) -> bool {
    19 * decode_shard_size(len) <= len
}

/// Concatenates shards.
pub fn flatten_shards(shards: &Vec<Vec<u8>>) -> (r: Vec<u8>)
    ensures
        r@ == shards_view(shards@).flatten(),
{
    let mut out: Vec<u8> = Vec::new();
    let mut k: usize = 0;
    while k < shards.len()
        invariant
            k <= shards@.len(),
            out@ == shards_view(shards@).take(k as int).flatten(),
        decreases shards@.len() - k,
    {
        let shard = &shards[k];
        let ghost before = out@;
        let mut j: usize = 0;
        while j < shard.len()
            invariant
                j <= shard@.len(),
                out@ == before + shard@.take(j as int),
            decreases shard@.len() - j,
        {
            out.push(shard[j]);
            j = j + 1;
            assert(out@ =~= before + shard@.take(j as int));
        }
        proof {
            let sv = shards_view(shards@);
            assert(sv.take(k + 1) =~= sv.take(k as int).push(sv[k as int]));
            sv.take(k as int).lemma_flatten_push(sv[k as int]);
            assert(shard@.take(j as int) =~= shard@);
        }
        k = k + 1;
    }
    assert(shards_view(shards@).take(k as int) =~= shards_view(shards@));
    out
}

/// Copies `data[start..end]`.
fn copy_range(data: &[u8], start: usize, end: usize) -> (r: Vec<u8>)
    requires
        start <= end <= data@.len(),
    ensures
        r@ == data@.subrange(start as int, end as int),
{
    let mut out: Vec<u8> = Vec::new();
    let mut i: usize = start;
    while i < end
        invariant
            start <= i <= end <= data@.len(),
            out@ == data@.subrange(start as int, i as int),
        decreases end - i,
    {
        out.push(data[i]);
        i = i + 1;
        assert(out@ =~= data@.subrange(start as int, i as int));
    }
    out
}

/// Appends `n` zero bytes.
fn pad_zeros(v: &mut Vec<u8>, n: usize)
    ensures
        final(v)@ == old(v)@ + zeros(n as nat),
{
    let mut i: usize = 0;
    while i < n
        invariant
            i <= n,
            v@ == old(v)@ + zeros(i as nat),
        decreases n - i,
    {
        v.push(0u8);
        i = i + 1;
        assert(v@ =~= old(v)@ + zeros(i as nat));
    }
}

/// Frames data for the laser channel: splits it into 16 zero-padded data
/// shards of `ceil(len / 16)` bytes, computes 4 parity shards, and
/// concatenates the 20 shards. Empty data has no frame.
pub fn rs_encode_frame(data: &[u8]) -> (r: Result<Vec<u8>, LaserError>)
    requires
        frame_encodable_len(data@.len() as int),
    ensures
        data@.len() == 0 ==> r == Err::<Vec<u8>, LaserError>(LaserError::DataCorruption),
        data@.len() > 0 ==> r is Ok && r.unwrap()@ == rs_frame(data@),
        r is Ok ==> r.unwrap()@.len() == 20 * encode_shard_size(data@.len() as int),
{
    let len = data.len();
    let shard_size: usize = len / 16 + if len % 16 != 0 { 1 } else { 0 };
    assert(shard_size == encode_shard_size(len as int));
    assert(shard_size <= len || len == 0);
    let mut shards: Vec<Vec<u8>> = Vec::new();
    let mut i: usize = 0;
    while i < FRAME_DATA_SHARDS
        invariant
            len == data@.len(),
            shard_size == encode_shard_size(len as int),
            15 * shard_size <= len,
            i <= 16,
            shards@.len() == i,
            forall|k: int| 0 <= k < i ==> (#[trigger] shards@[k])@ == padded_piece(data@, k, shard_size as int),
        decreases 16 - i,
    {
        assert(i * shard_size <= 15 * shard_size) by (nonlinear_arith)
            requires i <= 15;
        let start = i * shard_size;
        let end = if shard_size <= len - start { start + shard_size } else { len };
        let mut shard = copy_range(data, start, end);
        pad_zeros(&mut shard, shard_size - (end - start));
        shards.push(shard);
        i = i + 1;
    }
    let mut p: usize = 0;
    while p < FRAME_PARITY_SHARDS
        invariant
            shards@.len() == 16 + p,
            p <= 4,
            forall|k: int| 0 <= k < 16 ==> (#[trigger] shards@[k])@ == padded_piece(data@, k, shard_size as int),
            forall|k: int| 16 <= k < 16 + p ==> (#[trigger] shards@[k])@ == zeros(shard_size as nat),
        decreases 4 - p,
    {
        let mut parity: Vec<u8> = Vec::new();
        pad_zeros(&mut parity, shard_size);
        assert(parity@ =~= zeros(shard_size as nat));
        shards.push(parity);
        p = p + 1;
    }
    let ghost before = shards_view(shards@);
    proof {
        assert(before.take(16) =~= frame_data_shards(data@));
        if len > 0 {
            assert forall|k: int| 0 <= k < before.len() implies #[trigger] before[k].len() == before[0].len() by {
                if k < 16 {
                    assert(k * shard_size <= 15 * shard_size) by (nonlinear_arith)
                        requires k < 16, k >= 0;
                    lemma_padded_piece_len(data@, k, shard_size as int);
                }
            }
            lemma_padded_piece_len(data@, 0, shard_size as int);
        } else {
            assert(before[0].len() == 0);
        }
    }
    match rs_encode(FRAME_DATA_SHARDS, FRAME_PARITY_SHARDS, &mut shards) {
        Ok(()) => {
            let framed = flatten_shards(&shards);
            proof {
                let sv = shards_view(shards@);
                assert forall|k: int| 0 <= k < sv.len() implies (#[trigger] sv[k]).len() == shard_size by {
                    assert(sv[k] == shards@[k]@);
                }
                lemma_flatten_uniform_len(sv, shard_size as int);
            }
            Ok(framed)
        },
        Err(_) => Err(LaserError::DataCorruption),
    }
}

proof fn lemma_flatten_uniform_len(shards: Seq<Seq<u8>>, size: int)
    requires
        forall|k: int| 0 <= k < shards.len() ==> (#[trigger] shards[k]).len() == size,
    ensures
        shards.flatten().len() == shards.len() * size,
    decreases shards.len(),
{
    if shards.len() > 0 {
        let init = shards.drop_last();
        assert forall|k: int| 0 <= k < init.len() implies (#[trigger] init[k]).len() == size by {
            assert(init[k] == shards[k]);
        }
        lemma_flatten_uniform_len(init, size);
        assert(init.push(shards.last()) =~= shards);
        init.lemma_flatten_push(shards.last());
        assert((init.len() + 1) * size == init.len() * size + size) by (nonlinear_arith);
    }
}

/// The payload that a received frame carries: its first 16 twentieths.
pub open spec fn frame_payload(received: Seq<u8>) -> Seq<u8> {
    received.take(16 * (received.len() / 20) as int)
}

proof fn lemma_data_shards_prefix(data: Seq<u8>, k: int)
    requires
        0 <= k <= 15,
        frame_encodable_len(data.len() as int),
    ensures
        frame_data_shards(data).take(k).flatten() == data.take(k * encode_shard_size(data.len() as int)),
    decreases k,
{
    let s = encode_shard_size(data.len() as int);
    let d = frame_data_shards(data);
    if k == 0 {
        assert(d.take(0) =~= Seq::<Seq<u8>>::empty());
        assert(data.take(0) =~= Seq::<u8>::empty());
    } else {
        lemma_data_shards_prefix(data, k - 1);
        assert(d.take(k) =~= d.take(k - 1).push(d[k - 1]));
        d.take(k - 1).lemma_flatten_push(d[k - 1]);
        assert((k - 1) * s + s == k * s) by (nonlinear_arith);
        assert(k * s <= 15 * s) by (nonlinear_arith)
            requires k <= 15, s >= 0;
        assert(d[k - 1] =~= data.subrange((k - 1) * s, k * s));
        assert(data.take((k - 1) * s) + data.subrange((k - 1) * s, k * s) =~= data.take(k * s));
    }
}

/// Reading back a frame gives the framed data followed by the zero padding
/// of its last data shard: for non-empty data whose 16 pieces all start inside
/// it, the frame `rs_encode_frame` returns is one that `rs_decode_frame`
/// accepts, and its payload is the data padded to 16 shards.
pub proof fn lemma_frame_round_trip(data: Seq<u8>, frame: Seq<u8>)
    requires
        data.len() > 0,
        frame_encodable_len(data.len() as int),
        frame == rs_frame(data),
        frame.len() == 20 * encode_shard_size(data.len() as int),
    ensures
        frame_decodable_len(frame.len() as int),
        frame.len() > 0 && frame.len() % 20 == 0,
        frame_payload(frame) == data + zeros((16 * encode_shard_size(data.len() as int) - data.len()) as nat),
{
    let s = encode_shard_size(data.len() as int);
    let len = data.len() as int;
    let d = frame_data_shards(data);
    assert(s > 0);
    assert(frame.len() / 20 == s);
    assert(decode_shard_size(frame.len() as int) == s);
    lemma_data_shards_prefix(data, 15);
    assert(d =~= d.take(15).push(d[15]));
    d.take(15).lemma_flatten_push(d[15]);
    assert(15 * s + s == 16 * s);
    assert(d.flatten() =~= data + zeros((16 * s - len) as nat));
    lemma_flatten_concat(d, rs_parity(16, 4, d));
    assert(frame_payload(frame) =~= d.flatten());
}

proof fn lemma_padded_piece_len(data: Seq<u8>, i: int, size: int)
    requires
        0 <= i,
        size > 0,
        i * size <= data.len(),
    ensures
        padded_piece(data, i, size).len() == size,
{
}

/// Reads a laser frame: splits the received bytes into 20 shards of
/// `ceil(len / 20)` bytes, recovers missing shards, and concatenates the 16
/// data shards.
pub fn rs_decode_frame(data: &[u8]) -> (r: Result<Vec<u8>, LaserError>)
    requires
        frame_decodable_len(data@.len() as int),
    ensures
        r is Ok <==> data@.len() > 0 && data@.len() % 20 == 0,
        r is Ok ==> r.unwrap()@ == frame_payload(data@),
        r is Err ==> r == Err::<Vec<u8>, LaserError>(LaserError::DataCorruption),
{
    let len = data.len();
    let shard_size: usize = len / 20 + if len % 20 != 0 { 1 } else { 0 };
    assert(shard_size == decode_shard_size(len as int));
    let mut shards: Vec<Option<Vec<u8>>> = Vec::new();
    let mut i: usize = 0;
    while i < FRAME_TOTAL_SHARDS
        invariant
            len == data@.len(),
            shard_size == decode_shard_size(len as int),
            19 * shard_size <= len,
            i <= 20,
            shards@.len() == i,
            forall|k: int| 0 <= k < i ==> (#[trigger] opt_shards_view(shards@)[k]) == piece(data@, k, shard_size as int),
        decreases 20 - i,
    {
        assert(i * shard_size <= 19 * shard_size) by (nonlinear_arith)
            requires i <= 19;
        let start = i * shard_size;
        let end = if shard_size <= len - start { start + shard_size } else { len };
        let shard = copy_range(data, start, end);
        let ghost prev = shards@;
        let ghost sv = shard@;
        shards.push(Some(shard));
        assert(opt_shards_view(shards@) =~= opt_shards_view(prev).push(Some(sv)));
        i = i + 1;
    }
    let ghost before = opt_shards_view(shards@);
    proof {
        lemma_decode_pieces(data@, before);
    }
    match rs_reconstruct(FRAME_DATA_SHARDS, FRAME_PARITY_SHARDS, &mut shards) {
        Ok(()) => {
            proof {
                assert(opt_shards_view(shards@) =~= before);
                assert(opt_shards_view(shards@).len() == shards@.len());
            }
            let mut decoded: Vec<u8> = Vec::new();
            let mut k: usize = 0;
            while k < FRAME_DATA_SHARDS
                invariant
                    k <= 16,
                    shards@.len() == 20,
                    opt_shards_view(shards@) == before,
                    len == data@.len(),
                    len % 20 == 0,
                    shard_size == len / 20,
                    forall|m: int| 0 <= m < 20 ==> (#[trigger] before[m]) == piece(data@, m, shard_size as int),
                    decoded@ == data@.take((k * shard_size) as int),
                decreases 16 - k,
            {
                assert(before[k as int] == piece(data@, k as int, shard_size as int));
                match &shards[k] {
                    Some(shard) => {
                        let ghost prev = decoded@;
                        let mut j: usize = 0;
                        while j < shard.len()
                            invariant
                                j <= shard@.len(),
                                decoded@ == prev + shard@.take(j as int),
                            decreases shard@.len() - j,
                        {
                            decoded.push(shard[j]);
                            j = j + 1;
                            assert(decoded@ =~= prev + shard@.take(j as int));
                        }
                        proof {
                            assert(shard@ == before[k as int]->0);
                            assert(k * shard_size + shard_size == (k + 1) * shard_size) by (nonlinear_arith);
                            assert((k + 1) * shard_size <= 20 * shard_size) by (nonlinear_arith)
                                requires k < 16;
                            assert(shard@.take(j as int) =~= shard@);
                            assert(decoded@ =~= data@.take((k + 1) * shard_size));
                        }
                    },
                    None => {
                        proof {
                            assert(before[k as int] is Some);
                        }
                    },
                }
                k = k + 1;
            }
            Ok(decoded)
        },
        Err(_) => Err(LaserError::DataCorruption),
    }
}

/// The 20 pieces of a received frame are accepted by the decoder exactly when
/// the length is a positive multiple of 20.
proof fn lemma_decode_pieces(data: Seq<u8>, shards: Seq<Option<Seq<u8>>>)
    requires
        frame_decodable_len(data.len() as int),
        shards.len() == 20,
        forall|k: int| 0 <= k < 20 ==> (#[trigger] shards[k]) == piece(data, k, decode_shard_size(data.len() as int)),
    ensures
        rs_reconstructible(16, 4, shards) <==> data.len() > 0 && data.len() % 20 == 0,
        data.len() > 0 && data.len() % 20 == 0 ==> decode_shard_size(data.len() as int) == data.len() / 20,
{
    let s = decode_shard_size(data.len() as int);
    let len = data.len() as int;
    lemma_present_count_all(shards);
    assert(shards[19] == piece(data, 19, s));
    assert(shards[0] == piece(data, 0, s));
    if len > 0 && len % 20 == 0 {
        assert(s == len / 20);
        assert forall|k: int| 0 <= k < 20 implies (#[trigger] shards[k])->0.len() == s by {
            assert(shards[k] == piece(data, k, s));
            assert(k * s + s <= 20 * s) by (nonlinear_arith)
                requires k < 20, s > 0;
        }
        assert(rs_reconstructible(16, 4, shards));
    } else if len == 0 {
        assert(s == 0);
        assert(shards[0]->0.len() == 0);
    } else {
        assert(19 * s + s == 20 * s);
        assert(shards[19]->0.len() == len - 19 * s);
        assert(shards[0]->0.len() == s);
        assert(len - 19 * s != s);
    }
}

proof fn lemma_present_count_all(shards: Seq<Option<Seq<u8>>>)
    requires
        forall|k: int| 0 <= k < shards.len() ==> (#[trigger] shards[k]) is Some,
    ensures
        present_count(shards) == shards.len(),
    decreases shards.len(),
{
    if shards.len() > 0 {
        assert(shards.drop_last().len() == shards.len() - 1);
        assert forall|k: int| 0 <= k < shards.drop_last().len() implies (#[trigger] shards.drop_last()[k]) is Some by {
            assert(shards.drop_last()[k] == shards[k]);
        }
        lemma_present_count_all(shards.drop_last());
        assert(shards.last() == shards[shards.len() - 1]);
    }
}

// ---------------------------------------------------------------------------
// Power profiles and environment
// ---------------------------------------------------------------------------

/// Laser configuration, in fixed units.
#[derive(Debug, Clone, Copy, PartialEq, Eq, Structural)]
pub struct LaserConfig {
    pub laser_type: LaserType,
    pub modulation: ModulationScheme,
    /// Maximum power, microwatts.
    pub max_power_uw: u32,
    pub wavelength_nm: u32,
    /// Beam angle, thousandths of a degree.
    pub beam_angle_mdeg: u32,
    /// Nominal range, centimeters.
    pub range_cm: u32,
    pub data_rate_bps: u32,
}

impl Default for LaserConfig {
    /// A 5 mW visible red laser at 650 nm, on-off keying, 15°, 100 m, 1 Mbit/s.
    fn default() -> (r: Self)
        ensures
            r == (LaserConfig {
                laser_type: LaserType::Visible,
                modulation: ModulationScheme::Ook,
                max_power_uw: 5000,
                wavelength_nm: 650,
                beam_angle_mdeg: 15000,
                range_cm: 10000,
                data_rate_bps: 1_000_000,
            }),
    {
        LaserConfig {
            laser_type: LaserType::Visible,
            modulation: ModulationScheme::Ook,
            max_power_uw: 5000,
            wavelength_nm: 650,
            beam_angle_mdeg: 15000,
            range_cm: 10000,
            data_rate_bps: 1_000_000,
        }
    }
}

/// How the receiver reads the beam.
#[derive(Debug, Clone, Copy, PartialEq, Eq, Structural)]
pub struct ReceptionConfig {
    pub use_photodiode: bool,
    pub use_camera: bool,
    /// Photodiode threshold, per-mille of full scale.
    pub sensitivity_threshold_permille: u32,
    pub alignment_tolerance_px: u32,
}

impl Default for ReceptionConfig {
    /// A photodiode at a 0.1 threshold, no camera, 10 px alignment tolerance.
    fn default() -> (r: Self)
        ensures
            r == (ReceptionConfig {
                use_photodiode: true,
                use_camera: false,
                sensitivity_threshold_permille: 100,
                alignment_tolerance_px: 10,
            }),
    {
        ReceptionConfig { use_photodiode: true, use_camera: false, sensitivity_threshold_permille: 100, alignment_tolerance_px: 10 }
    }
}

/// Adaptive power profile for a range category, in fixed units.
#[derive(Debug, Clone, Copy, PartialEq, Eq, Structural)]
pub struct PowerProfile {
    /// Microwatts.
    pub max_power_uw: u32,
    /// Microwatts.
    pub optimal_power_uw: u32,
    /// Microwatts.
    pub min_power_uw: u32,
    pub data_rate_bps: u32,
    /// Thousandths of a degree.
    pub beam_angle_mdeg: u32,
    /// Eye-safety margin factor, per-mille.
    pub safety_margin_permille: u32,
}

pub open spec fn profile_for(category: RangeDetectorCategory) -> PowerProfile {
    match category {
        RangeDetectorCategory::Close => PowerProfile {
            max_power_uw: 5000,
            optimal_power_uw: 2000,
            min_power_uw: 500,
            data_rate_bps: 2_000_000,
            beam_angle_mdeg: 10000,
            safety_margin_permille: 1000,
        },
        RangeDetectorCategory::Medium => PowerProfile {
            max_power_uw: 15000,
            optimal_power_uw: 8000,
            min_power_uw: 3000,
            data_rate_bps: 1_000_000,
            beam_angle_mdeg: 12000,
            safety_margin_permille: 1500,
        },
        RangeDetectorCategory::Far => PowerProfile {
            max_power_uw: 50000,
            optimal_power_uw: 25000,
            min_power_uw: 10000,
            data_rate_bps: 500_000,
            beam_angle_mdeg: 15000,
            safety_margin_permille: 2000,
        },
        RangeDetectorCategory::Extreme => PowerProfile {
            max_power_uw: 100000,
            optimal_power_uw: 60000,
            min_power_uw: 20000,
            data_rate_bps: 250_000,
            beam_angle_mdeg: 20000,
            safety_margin_permille: 3000,
        },
    }
}

pub open spec fn default_profile() -> PowerProfile {
    PowerProfile {
        max_power_uw: 5000,
        optimal_power_uw: 3000,
        min_power_uw: 1000,
        data_rate_bps: 1_000_000,
        beam_angle_mdeg: 15000,
        safety_margin_permille: 1000,
    }
}

/// Eye-safe power limit: 1 mW for visible light and 10 mW for infrared,
/// times the safety margin, and never above the profile's maximum.
pub open spec fn safe_limit(profile: PowerProfile, laser_type: LaserType) -> int {
    let base: int = match laser_type {
        LaserType::Visible => 1000,
        LaserType::Infrared => 10000,
    };
    let limit = base * profile.safety_margin_permille / 1000;
    if limit < profile.max_power_uw {
        limit
    } else {
        profile.max_power_uw as int
    }
}

impl Default for PowerProfile {
    fn default() -> (r: Self)
        ensures
            r == default_profile(),
    {
        PowerProfile {
            max_power_uw: 5000,
            optimal_power_uw: 3000,
            min_power_uw: 1000,
            data_rate_bps: 1_000_000,
            beam_angle_mdeg: 15000,
            safety_margin_permille: 1000,
        }
    }
}

impl PowerProfile {
    /// Close range, 10 to 50 m.
    pub fn close_range() -> (r: Self)
        ensures
            r == profile_for(RangeDetectorCategory::Close),
    {
        PowerProfile {
            max_power_uw: 5000,
            optimal_power_uw: 2000,
            min_power_uw: 500,
            data_rate_bps: 2_000_000,
            beam_angle_mdeg: 10000,
            safety_margin_permille: 1000,
        }
    }

    /// Medium range, 50 to 100 m.
    pub fn medium_range() -> (r: Self)
        ensures
            r == profile_for(RangeDetectorCategory::Medium),
    {
        PowerProfile {
            max_power_uw: 15000,
            optimal_power_uw: 8000,
            min_power_uw: 3000,
            data_rate_bps: 1_000_000,
            beam_angle_mdeg: 12000,
            safety_margin_permille: 1500,
        }
    }

    /// Far range, 100 to 150 m.
    pub fn far_range() -> (r: Self)
        ensures
            r == profile_for(RangeDetectorCategory::Far),
    {
        PowerProfile {
            max_power_uw: 50000,
            optimal_power_uw: 25000,
            min_power_uw: 10000,
            data_rate_bps: 500_000,
            beam_angle_mdeg: 15000,
            safety_margin_permille: 2000,
        }
    }

    /// Extreme range, 150 to 200 m.
    pub fn extreme_range() -> (r: Self)
        ensures
            r == profile_for(RangeDetectorCategory::Extreme),
    {
        PowerProfile {
            max_power_uw: 100000,
            optimal_power_uw: 60000,
            min_power_uw: 20000,
            data_rate_bps: 250_000,
            beam_angle_mdeg: 20000,
            safety_margin_permille: 3000,
        }
    }

    pub fn for_range_category(category: &RangeDetectorCategory) -> (r: Self)
        ensures
            r == profile_for(*category),
    {
        match category {
            RangeDetectorCategory::Close => Self::close_range(),
            RangeDetectorCategory::Medium => Self::medium_range(),
            RangeDetectorCategory::Far => Self::far_range(),
            RangeDetectorCategory::Extreme => Self::extreme_range(),
        }
    }

    /// Eye-safe power limit in microwatts.
    pub fn safe_power_limit(&self, laser_type: &LaserType) -> (r: u64)
        ensures
            r == safe_limit(*self, *laser_type),
    {
        let base: u64 = match laser_type {
            LaserType::Visible => 1000,
            LaserType::Infrared => 10000,
        };
        assert(base * (self.safety_margin_permille as u64) <= 10000 * 0xffff_ffffu64) by (nonlinear_arith)
            requires base <= 10000;
        let limit = base * (self.safety_margin_permille as u64) / 1000;
        if limit < self.max_power_uw as u64 {
            limit
        } else {
            self.max_power_uw as u64
        }
    }
}

/// Power factor of the weather, per-mille.
pub open spec fn weather_power_factor(weather: WeatherCondition) -> nat {
    match weather {
        WeatherCondition::Clear => 1000,
        WeatherCondition::Rain => 1500,
        WeatherCondition::Fog => 3000,
        WeatherCondition::Storm => 2000,
        WeatherCondition::Snow => 2500,
        WeatherCondition::HeavyRain => 2000,
        WeatherCondition::LightRain => 1300,
        WeatherCondition::Cloudy => 1100,
    }
}

/// Power factor of the visibility, per-mille: below 100 m three times, below
/// 500 m twice, below 1 km one and a half.
pub open spec fn visibility_power_factor(visibility_cm: u32) -> nat {
    if visibility_cm < 10000 {
        3000
    } else if visibility_cm < 50000 {
        2000
    } else if visibility_cm < 100000 {
        1500
    } else {
        1000
    }
}

fn weather_factor(weather: WeatherCondition) -> (r: u64)
    ensures
        r == weather_power_factor(weather),
{
    match weather {
        WeatherCondition::Clear => 1000,
        WeatherCondition::Rain => 1500,
        WeatherCondition::Fog => 3000,
        WeatherCondition::Storm => 2000,
        WeatherCondition::Snow => 2500,
        WeatherCondition::HeavyRain => 2000,
        WeatherCondition::LightRain => 1300,
        WeatherCondition::Cloudy => 1100,
    }
}

fn visibility_factor(visibility_cm: u32) -> (r: u64)
    ensures
        r == visibility_power_factor(visibility_cm),
{
    if visibility_cm < 10000 {
        3000
    } else if visibility_cm < 50000 {
        2000
    } else if visibility_cm < 100000 {
        1500
    } else {
        1000
    }
}

/// Optimal power scaled by the weather and visibility factors.
pub open spec fn compensated_power(optimal_uw: u32, weather: WeatherCondition, visibility_cm: u32) -> int {
    optimal_uw * weather_power_factor(weather) * visibility_power_factor(visibility_cm) / 1_000_000
}

fn compensate_power(optimal_uw: u32, weather: WeatherCondition, visibility_cm: u32) -> (r: u64)
    ensures
        r == compensated_power(optimal_uw, weather, visibility_cm),
{
    let w = weather_factor(weather);
    let v = visibility_factor(visibility_cm);
    assert((optimal_uw as u64) * w <= 0xffff_ffffu64 * 3000) by (nonlinear_arith)
        requires w <= 3000;
    assert((optimal_uw as u64) * w * v <= 0xffff_ffffu64 * 3000 * 3000) by (nonlinear_arith)
        requires (optimal_uw as u64) * w <= 0xffff_ffffu64 * 3000, v <= 3000;
    (optimal_uw as u64) * w * v / 1_000_000
}

/// Environmental impact on the channel: the inferred weather, the visibility
/// in centimeters and the attenuation factor in per-mille.
#[derive(Debug, Clone, Copy, PartialEq, Eq, Structural)]
pub struct EnvironmentalImpact {
    pub weather: WeatherCondition,
    pub visibility_cm: u32,
    pub attenuation_permille: u32,
}

/// The profile a range measurement selects: that of the distance's
/// category, with its optimal power scaled for the weather and visibility
/// (capped at the maximum) when the environment is known.
pub open spec fn measured_profile(distance_cm: u32, env: Option<EnvironmentalImpact>) -> PowerProfile {
    let base = profile_for(crate::range_detector::category_of_distance(distance_cm));
    match env {
        None => base,
        Some(e) => {
            let p = compensated_power(base.optimal_power_uw, e.weather, e.visibility_cm);
            PowerProfile { optimal_power_uw: if p < base.max_power_uw { p as u32 } else { base.max_power_uw }, ..base }
        },
    }
}

/// Ambient conditions measured by the range detector, in fixed units.
#[derive(Debug, Clone, Copy, PartialEq, Eq, Structural)]
pub struct RangeEnvironmentalConditions {
    /// Thousandths of a degree Celsius.
    pub temperature_mdeg_c: i32,
    /// Relative humidity, per-mille.
    pub humidity_permille: u32,
    /// Pascals.
    pub pressure_pa: u32,
    /// Millimeters per second.
    pub wind_speed_mm_per_s: i32,
    /// Centimeters.
    pub visibility_cm: u32,
}

impl Default for RangeEnvironmentalConditions {
    /// 20 °C, 50% humidity, 1013.25 hPa, no wind, 10 km visibility.
    fn default() -> (r: Self)
        ensures
            r == (RangeEnvironmentalConditions {
                temperature_mdeg_c: 20000,
                humidity_permille: 500,
                pressure_pa: 101325,
                wind_speed_mm_per_s: 0,
                visibility_cm: 1_000_000,
            }),
    {
        RangeEnvironmentalConditions {
            temperature_mdeg_c: 20000,
            humidity_permille: 500,
            pressure_pa: 101325,
            wind_speed_mm_per_s: 0,
            visibility_cm: 1_000_000,
        }
    }
}

/// Weather inferred from ambient conditions.
pub open spec fn weather_from_conditions(c: RangeEnvironmentalConditions) -> WeatherCondition {
    if c.humidity_permille > 950 && c.temperature_mdeg_c < 15000 {
        WeatherCondition::Fog
    } else if c.temperature_mdeg_c < 5000 && c.humidity_permille > 800 {
        WeatherCondition::Snow
    } else if c.humidity_permille > 900 && c.pressure_pa < 101000 {
        WeatherCondition::HeavyRain
    } else if c.humidity_permille > 750 && c.pressure_pa < 101200 {
        WeatherCondition::LightRain
    } else if c.humidity_permille > 600 {
        WeatherCondition::Cloudy
    } else {
        WeatherCondition::Clear
    }
}

pub open spec fn abs_diff(a: int, b: int) -> int {
    if a >= b {
        a - b
    } else {
        b - a
    }
}

/// Attenuation factor in per-mille: one, plus half the humidity, plus 0.3 per
/// 20 °C away from 20 °C, plus 0.2 per 10 hPa away from 1013.25 hPa.
pub open spec fn attenuation_from_conditions(c: RangeEnvironmentalConditions) -> int {
    1000 + c.humidity_permille / 2 + abs_diff(c.temperature_mdeg_c as int, 20000) * 3 / 200 + abs_diff(
        c.pressure_pa as int,
        101325,
    ) / 5
}

pub fn infer_weather_from_conditions(c: &RangeEnvironmentalConditions) -> (r: WeatherCondition)
    ensures
        r == weather_from_conditions(*c),
{
    if c.humidity_permille > 950 && c.temperature_mdeg_c < 15000 {
        WeatherCondition::Fog
    } else if c.temperature_mdeg_c < 5000 && c.humidity_permille > 800 {
        WeatherCondition::Snow
    } else if c.humidity_permille > 900 && c.pressure_pa < 101000 {
        WeatherCondition::HeavyRain
    } else if c.humidity_permille > 750 && c.pressure_pa < 101200 {
        WeatherCondition::LightRain
    } else if c.humidity_permille > 600 {
        WeatherCondition::Cloudy
    } else {
        WeatherCondition::Clear
    }
}

pub fn calculate_environmental_attenuation(c: &RangeEnvironmentalConditions) -> (r: u64)
    ensures
        r == attenuation_from_conditions(*c),
{
    let t = c.temperature_mdeg_c as i64;
    let dt: u64 = if t >= 20000 { (t - 20000) as u64 } else { (20000 - t) as u64 };
    let p = c.pressure_pa as u64;
    let dp: u64 = if p >= 101325 { p - 101325 } else { 101325 - p };
    1000 + (c.humidity_permille as u64) / 2 + dt * 3 / 200 + dp / 5
}

/// The impact that ambient conditions have on the channel.
pub fn environmental_impact(c: &RangeEnvironmentalConditions) -> (r: EnvironmentalImpact)
    requires
        attenuation_from_conditions(*c) <= u32::MAX,
    ensures
        r == (EnvironmentalImpact {
            weather: weather_from_conditions(*c),
            visibility_cm: c.visibility_cm,
            attenuation_permille: attenuation_from_conditions(*c) as u32,
        }),
{
    EnvironmentalImpact {
        weather: infer_weather_from_conditions(c),
        visibility_cm: c.visibility_cm,
        attenuation_permille: calculate_environmental_attenuation(c) as u32,
    }
}

/// Ambient conditions assumed for a reported weather and visibility.
pub open spec fn conditions_for_weather(weather: WeatherCondition, visibility_cm: u32) -> RangeEnvironmentalConditions {
    let (t, h, p, w): (i32, u32, u32, i32) = match weather {
        WeatherCondition::Clear => (20000, 500, 101325, 2000),
        WeatherCondition::Rain => (15000, 850, 100800, 5000),
        WeatherCondition::Fog => (10000, 980, 101000, 1000),
        WeatherCondition::Storm => (12000, 950, 100500, 8000),
        WeatherCondition::Snow => (0, 900, 101200, 3000),
        WeatherCondition::HeavyRain => (14000, 950, 100600, 7000),
        WeatherCondition::LightRain => (16000, 800, 100900, 4000),
        WeatherCondition::Cloudy => (18000, 600, 101200, 2500),
    };
    RangeEnvironmentalConditions {
        temperature_mdeg_c: t,
        humidity_permille: h,
        pressure_pa: p,
        wind_speed_mm_per_s: w,
        visibility_cm,
    }
}

pub fn weather_to_conditions(weather: WeatherCondition, visibility_cm: u32) -> (r: RangeEnvironmentalConditions)
    ensures
        r == conditions_for_weather(weather, visibility_cm),
{
    let (t, h, p, w): (i32, u32, u32, i32) = match weather {
        WeatherCondition::Clear => (20000, 500, 101325, 2000),
        WeatherCondition::Rain => (15000, 850, 100800, 5000),
        WeatherCondition::Fog => (10000, 980, 101000, 1000),
        WeatherCondition::Storm => (12000, 950, 100500, 8000),
        WeatherCondition::Snow => (0, 900, 101200, 3000),
        WeatherCondition::HeavyRain => (14000, 950, 100600, 7000),
        WeatherCondition::LightRain => (16000, 800, 100900, 4000),
        WeatherCondition::Cloudy => (18000, 600, 101200, 2500),
    };
    RangeEnvironmentalConditions {
        temperature_mdeg_c: t,
        humidity_permille: h,
        pressure_pa: p,
        wind_speed_mm_per_s: w,
        visibility_cm,
    }
}

/// Alignment reading of the beam.
#[derive(Debug, Clone, Copy, PartialEq, Eq, Structural)]
pub struct AlignmentStatus {
    pub is_aligned: bool,
    /// Per-mille of full scale.
    pub signal_strength_permille: u32,
}

/// Failures of the channel, in the order they are reported.
pub open spec fn channel_failures(active: bool, alignment: AlignmentStatus, power_safe: bool) -> Seq<LaserError> {
    if !active {
        seq![LaserError::HardwareUnavailable]
    } else {
        let a = if !alignment.is_aligned { seq![LaserError::AlignmentLost] } else { seq![] };
        let b = if alignment.signal_strength_permille < 200 { seq![LaserError::TransmissionFailed] } else { seq![] };
        let c = if !power_safe { seq![LaserError::SafetyViolation] } else { seq![] };
        let d = if alignment.is_aligned && alignment.signal_strength_permille < 300 {
            seq![LaserError::DataCorruption]
        } else {
            seq![]
        };
        a + b + c + d
    }
}

/// Lists the failures of the channel: an inactive laser is unavailable;
/// otherwise lost alignment, a signal below 0.2 (transmission failure), unsafe
/// power, and an aligned beam with a signal below 0.3 (an obstruction,
/// reported as data corruption).
pub fn detect_channel_failures(active: bool, alignment: AlignmentStatus, power_safe: bool) -> (r: Vec<LaserError>)
    ensures
        r@ == channel_failures(active, alignment, power_safe),
{
    let mut failures: Vec<LaserError> = Vec::new();
    if !active {
        failures.push(LaserError::HardwareUnavailable);
        assert(failures@ =~= channel_failures(active, alignment, power_safe));
        return failures;
    }
    if !alignment.is_aligned {
        failures.push(LaserError::AlignmentLost);
    }
    if alignment.signal_strength_permille < 200 {
        failures.push(LaserError::TransmissionFailed);
    }
    if !power_safe {
        failures.push(LaserError::SafetyViolation);
    }
    if alignment.is_aligned && alignment.signal_strength_permille < 300 {
        failures.push(LaserError::DataCorruption);
    }
    assert(failures@ =~= channel_failures(active, alignment, power_safe));
    failures
}

/// Safety margins (power, range, alignment) in per-mille for the environment:
/// the weather's power factor, 0.8 below 500 m visibility, and the
/// attenuation within 1 to 2; all one without environmental data.
pub open spec fn safety_margins(env: Option<EnvironmentalImpact>) -> (int, int, int) {
    match env {
        None => (1000, 1000, 1000),
        Some(e) => (
            weather_power_factor(e.weather) as int,
            if e.visibility_cm < 50000 { 800 } else { 1000 },
            clamp_int(e.attenuation_permille as int, 1000, 2000),
        ),
    }
}

pub open spec fn clamp_int(v: int, lo: int, hi: int) -> int {
    if v < lo {
        lo
    } else if v > hi {
        hi
    } else {
        v
    }
}

pub fn get_safety_margins(env: Option<EnvironmentalImpact>) -> (r: (u64, u64, u64))
    ensures
        (r.0 as int, r.1 as int, r.2 as int) == safety_margins(env),
{
    match env {
        None => (1000, 1000, 1000),
        Some(e) => {
            let power = weather_factor(e.weather);
            let range: u64 = if e.visibility_cm < 50000 { 800 } else { 1000 };
            let a = e.attenuation_permille as u64;
            let alignment: u64 = if a < 1000 { 1000 } else if a > 2000 { 2000 } else { a };
            (power, range, alignment)
        },
    }
}

/// Modulation chosen for the conditions when adaptation applies. Close range
/// takes on-off keying with a signal above 0.8 and attenuation below 1.2 (or
/// unknown), Manchester otherwise; medium range pulse-width above 0.6 signal,
/// frequency-shift otherwise; far range QR projection below 300 m visibility,
/// Manchester otherwise; extreme range QR projection. Without a range, a
/// signal below 0.5 takes QR projection, attenuation above 1.5 Manchester,
/// and otherwise the configured scheme stays.
pub open spec fn adaptive_modulation(
    configured: ModulationScheme,
    category: Option<RangeDetectorCategory>,
    env: Option<EnvironmentalImpact>,
    signal_permille: u32,
) -> ModulationScheme {
    match category {
        Some(RangeDetectorCategory::Close) => {
            if signal_permille > 800 && (env is None || env->0.attenuation_permille < 1200) {
                ModulationScheme::Ook
            } else {
                ModulationScheme::Manchester
            }
        },
        Some(RangeDetectorCategory::Medium) => {
            if signal_permille > 600 {
                ModulationScheme::Pwm
            } else {
                ModulationScheme::Fsk
            }
        },
        Some(RangeDetectorCategory::Far) => {
            if env is Some && env->0.visibility_cm < 30000 {
                ModulationScheme::QrProjection
            } else {
                ModulationScheme::Manchester
            }
        },
        Some(RangeDetectorCategory::Extreme) => ModulationScheme::QrProjection,
        None => {
            if signal_permille < 500 {
                ModulationScheme::QrProjection
            } else if env is Some && env->0.attenuation_permille > 1500 {
                ModulationScheme::Manchester
            } else {
                configured
            }
        },
    }
}

// ---------------------------------------------------------------------------
// Engine state
// ---------------------------------------------------------------------------

/// The decision state of a laser channel: configuration, error-correction
/// mode, adaptive mode and the active power profile. The hardware it drives
/// lives outside this library.
#[derive(Debug)]
pub struct LaserEngine {
    config: LaserConfig,
    rx_config: ReceptionConfig,
    optical_ecc: Option<OpticalECC>,
    adaptive_mode: bool,
    range_detector_attached: bool,
    power_profile: PowerProfile,
    safety_monitor: SafetyMonitor,
    active: bool,
}

/// Energy delivered and eye-safety violations since the last reset.
#[derive(Debug, Clone, Copy, PartialEq, Eq, Structural)]
pub struct SafetyMonitor {
    /// Milliseconds since the epoch of the last activity or reset.
    pub last_activity_ms: u64,
    /// Microjoules.
    pub total_energy_uj: u64,
    pub eye_safety_violations: u32,
}

impl LaserEngine {
    pub closed spec fn config(&self) -> LaserConfig {
        self.config
    }

    pub closed spec fn reception(&self) -> ReceptionConfig {
        self.rx_config
    }

    pub closed spec fn optical_ecc_enabled(&self) -> bool {
        self.optical_ecc is Some
    }

    pub closed spec fn ecc_engine(&self) -> Option<OpticalECC> {
        self.optical_ecc
    }

    pub closed spec fn adaptive(&self) -> bool {
        self.adaptive_mode
    }

    pub closed spec fn has_range_detector(&self) -> bool {
        self.range_detector_attached
    }

    /// Whether the hardware has been initialized and not shut down.
    pub closed spec fn active(&self) -> bool {
        self.active
    }

    pub closed spec fn profile(&self) -> PowerProfile {
        self.power_profile
    }

    pub closed spec fn wf(&self) -> bool {
        self.optical_ecc matches Some(e) ==> e.wf()
    }

    /// A channel with basic Reed-Solomon framing, fixed modulation and the
    /// default power profile.
    pub closed spec fn safety(&self) -> SafetyMonitor {
        self.safety_monitor
    }

    pub fn new(config: LaserConfig, rx_config: ReceptionConfig, now_ms: u64) -> (r: Self)
        ensures
            r.wf(),
            r.config() == config,
            r.reception() == rx_config,
            !r.optical_ecc_enabled(),
            !r.adaptive(),
            !r.has_range_detector(),
            r.profile() == default_profile(),
            r.safety() == (SafetyMonitor { last_activity_ms: now_ms, total_energy_uj: 0, eye_safety_violations: 0 }),
            !r.active(),
    {
        LaserEngine {
            config,
            rx_config,
            optical_ecc: None,
            adaptive_mode: false,
            range_detector_attached: false,
            power_profile: PowerProfile::default(),
            safety_monitor: SafetyMonitor { last_activity_ms: now_ms, total_energy_uj: 0, eye_safety_violations: 0 },
            active: false,
        }
    }

    /// Brings the hardware up; the laser is then active.
    pub fn initialize(&mut self) -> (r: Result<(), LaserError>)
        ensures
            r is Ok,
            final(self).active(),
            final(self).config() == old(self).config(),
            final(self).ecc_engine() == old(self).ecc_engine(),
            final(self).wf() == old(self).wf(),
            final(self).adaptive() == old(self).adaptive(),
            final(self).has_range_detector() == old(self).has_range_detector(),
            final(self).profile() == old(self).profile(),
            final(self).safety() == old(self).safety(),
    {
        self.active = true;
        Ok(())
    }

    /// Shuts the hardware down; the laser is then inactive.
    pub fn shutdown(&mut self) -> (r: Result<(), LaserError>)
        ensures
            r is Ok,
            !final(self).active(),
            final(self).config() == old(self).config(),
            final(self).ecc_engine() == old(self).ecc_engine(),
            final(self).wf() == old(self).wf(),
            final(self).adaptive() == old(self).adaptive(),
            final(self).has_range_detector() == old(self).has_range_detector(),
            final(self).profile() == old(self).profile(),
            final(self).safety() == old(self).safety(),
    {
        self.active = false;
        Ok(())
    }

    pub fn is_active(&self) -> (r: bool)
        ensures
            r == self.active(),
    {
        self.active
    }

    pub fn get_config(&self) -> (r: LaserConfig)
        ensures
            r == self.config(),
    {
        self.config
    }

    /// Switches to the optical error-correction engine built from `config`.
    pub fn enable_optical_ecc(&mut self, config: AdaptiveECCConfig, now_ms: u64) -> (r: Result<(), LaserError>)
        requires
            config.reed_solomon.data_shards > 0,
            config.reed_solomon.parity_shards > 0,
            config.reed_solomon.data_shards + config.reed_solomon.parity_shards <= 256,
        ensures
            r is Ok,
            final(self).wf(),
            final(self).optical_ecc_enabled(),
            final(self).config() == old(self).config(),
            final(self).adaptive() == old(self).adaptive(),
            final(self).has_range_detector() == old(self).has_range_detector(),
            final(self).profile() == old(self).profile(),
    {
        self.optical_ecc = Some(OpticalECC::new(config, now_ms));
        Ok(())
    }

    /// Falls back to basic Reed-Solomon framing.
    pub fn disable_optical_ecc(&mut self)
        ensures
            final(self).wf(),
            !final(self).optical_ecc_enabled(),
            final(self).config() == old(self).config(),
            final(self).adaptive() == old(self).adaptive(),
            final(self).has_range_detector() == old(self).has_range_detector(),
            final(self).profile() == old(self).profile(),
    {
        self.optical_ecc = None;
    }

    pub fn is_optical_ecc_enabled(&self) -> (r: bool)
        ensures
            r == self.optical_ecc_enabled(),
    {
        self.optical_ecc.is_some()
    }

    /// Encodes a frame: through the optical engine when enabled, else as a
    /// Reed-Solomon frame of 16 data and 4 parity shards.
    pub fn encode_with_ecc(&mut self, data: &[u8]) -> (r: Result<Vec<u8>, LaserError>)
        requires
            old(self).wf(),
            !old(self).optical_ecc_enabled() ==> frame_encodable_len(data@.len() as int),
        ensures
            final(self).wf(),
            old(self).optical_ecc_enabled() ==> r is Ok && r.unwrap()@ == interleaved_form(convolutional_form(data@)),
            !old(self).optical_ecc_enabled() && data@.len() == 0 ==> r == Err::<Vec<u8>, LaserError>(LaserError::DataCorruption),
            !old(self).optical_ecc_enabled() && data@.len() > 0 ==> r is Ok && r.unwrap()@ == rs_frame(data@)
                && r.unwrap()@.len() == 20 * encode_shard_size(data@.len() as int),
            final(self).config() == old(self).config(),
            final(self).profile() == old(self).profile(),
            final(self).safety() == old(self).safety(),
            final(self).adaptive() == old(self).adaptive(),
            final(self).has_range_detector() == old(self).has_range_detector(),
            final(self).active() == old(self).active(),
            final(self).optical_ecc_enabled() == old(self).optical_ecc_enabled(),
    {
        match &mut self.optical_ecc {
            Some(ecc) => match ecc.encode(data) {
                Ok(v) => Ok(v),
                Err(_) => Err(LaserError::DataCorruption),
            },
            None => rs_encode_frame(data),
        }
    }

    /// Decodes a frame: through the optical engine when enabled, else as a
    /// Reed-Solomon frame of 20 shards whose 16 data shards are returned.
    pub fn decode_with_ecc(&mut self, data: &[u8]) -> (r: Result<Vec<u8>, LaserError>)
        requires
            old(self).wf(),
            !old(self).optical_ecc_enabled() ==> frame_decodable_len(data@.len() as int),
        ensures
            final(self).wf(),
            old(self).optical_ecc_enabled() ==> r is Ok && interleaved_form(convolutional_form(r.unwrap()@)) == data@,
            !old(self).optical_ecc_enabled() ==> (r is Ok <==> data@.len() > 0 && data@.len() % 20 == 0),
            !old(self).optical_ecc_enabled() && r is Ok ==> r.unwrap()@ == frame_payload(data@),
            !old(self).optical_ecc_enabled() && r is Err ==> r == Err::<Vec<u8>, LaserError>(LaserError::DataCorruption),
            final(self).config() == old(self).config(),
            final(self).profile() == old(self).profile(),
            final(self).safety() == old(self).safety(),
            final(self).adaptive() == old(self).adaptive(),
            final(self).has_range_detector() == old(self).has_range_detector(),
            final(self).active() == old(self).active(),
            final(self).optical_ecc_enabled() == old(self).optical_ecc_enabled(),
    {
        match &mut self.optical_ecc {
            Some(ecc) => match ecc.decode(data) {
                Ok(v) => Ok(v),
                Err(_) => Err(LaserError::DataCorruption),
            },
            None => rs_decode_frame(data),
        }
    }

    /// Feeds a quality measurement to the optical engine, when enabled.
    pub fn update_optical_quality(&mut self, metrics: OpticalQualityMetrics, now_ms: u64) -> (r: Result<(), LaserError>)
        requires
            old(self).wf(),
            old(self).ecc_engine() matches Some(e) ==> (e.adaptation_enabled() ==> e.data_shards()
                + crate::optical_ecc::parity_for_strength(
                crate::optical_ecc::strength_for(
                    crate::optical_ecc::range_category_of(metrics.range_cm),
                    crate::optical_ecc::condition_from_metrics(metrics),
                ),
            ) <= 256),
        ensures
            r is Ok,
            final(self).wf(),
            final(self).optical_ecc_enabled() == old(self).optical_ecc_enabled(),
            final(self).config() == old(self).config(),
            final(self).safety() == old(self).safety(),
            final(self).adaptive() == old(self).adaptive(),
            final(self).has_range_detector() == old(self).has_range_detector(),
            final(self).active() == old(self).active(),
            old(self).ecc_engine() matches Some(e) ==> (final(self).ecc_engine() matches Some(ne) && {
                let strength = crate::optical_ecc::strength_for(
                    crate::optical_ecc::range_category_of(metrics.range_cm),
                    crate::optical_ecc::condition_from_metrics(metrics),
                );
                &&& ne.history() == crate::optical_ecc::bounded_push(e.history(), metrics, 100)
                &&& ne.data_shards() == e.data_shards()
                &&& e.adaptation_enabled() ==> ne.parity_shards() == crate::optical_ecc::parity_for_strength(strength)
                    && ne.interleaving_depth() == crate::optical_ecc::depth_for_strength(strength)
                &&& !e.adaptation_enabled() ==> ne.parity_shards() == e.parity_shards()
                    && ne.interleaving_depth() == e.interleaving_depth()
            }),
            old(self).ecc_engine() is None ==> final(self).ecc_engine() is None,
            final(self).profile() == old(self).profile(),
    {
        match &mut self.optical_ecc {
            Some(ecc) => {
                let _ = ecc.update_quality_metrics(metrics, now_ms);
            },
            None => {},
        }
        Ok(())
    }

    /// Enables adaptive mode with a range detector attached.
    pub fn enable_adaptive_mode(&mut self)
        ensures
            final(self).wf() == old(self).wf(),
            final(self).adaptive(),
            final(self).has_range_detector(),
            final(self).config() == old(self).config(),
            final(self).optical_ecc_enabled() == old(self).optical_ecc_enabled(),
            final(self).profile() == old(self).profile(),
    {
        self.range_detector_attached = true;
        self.adaptive_mode = true;
    }

    /// Disables adaptive mode, detaches the range detector and restores the
    /// default power profile.
    pub fn disable_adaptive_mode(&mut self)
        ensures
            final(self).wf() == old(self).wf(),
            !final(self).adaptive(),
            !final(self).has_range_detector(),
            final(self).profile() == default_profile(),
            final(self).config() == old(self).config(),
            final(self).optical_ecc_enabled() == old(self).optical_ecc_enabled(),
    {
        self.range_detector_attached = false;
        self.adaptive_mode = false;
        self.power_profile = PowerProfile::default();
    }

    pub fn has_range_detector_attached(&self) -> (r: bool)
        ensures
            r == self.has_range_detector(),
    {
        self.range_detector_attached
    }

    pub fn is_adaptive_mode(&self) -> (r: bool)
        ensures
            r == self.adaptive(),
    {
        self.adaptive_mode
    }

    pub fn get_current_power_profile(&self) -> (r: PowerProfile)
        ensures
            r == self.profile(),
    {
        self.power_profile
    }

    /// Installs a profile whose optimal power is within the eye-safe limit
    /// for this laser; refuses any other with a safety violation.
    pub fn set_power_profile(&mut self, profile: PowerProfile) -> (r: Result<(), LaserError>)
        ensures
            r is Ok <==> profile.optimal_power_uw <= safe_limit(profile, old(self).config().laser_type),
            r is Ok ==> final(self).profile() == profile,
            r is Err ==> r == Err::<(), LaserError>(LaserError::SafetyViolation) && final(self).profile() == old(self).profile(),
            final(self).wf() == old(self).wf(),
            final(self).config() == old(self).config(),
            final(self).adaptive() == old(self).adaptive(),
            final(self).has_range_detector() == old(self).has_range_detector(),
            final(self).optical_ecc_enabled() == old(self).optical_ecc_enabled(),
    {
        let limit = profile.safe_power_limit(&self.config.laser_type);
        if profile.optimal_power_uw as u64 > limit {
            return Err(LaserError::SafetyViolation);
        }
        self.power_profile = profile;
        Ok(())
    }

    /// The lower of the profile's maximum and its eye-safe limit, in microwatts.
    pub fn get_effective_power_limit(&self) -> (r: u64)
        ensures
            r == (if self.profile().max_power_uw < safe_limit(self.profile(), self.config().laser_type) {
                self.profile().max_power_uw as int
            } else {
                safe_limit(self.profile(), self.config().laser_type)
            }),
    {
        let safe = self.power_profile.safe_power_limit(&self.config.laser_type);
        if (self.power_profile.max_power_uw as u64) < safe {
            self.power_profile.max_power_uw as u64
        } else {
            safe
        }
    }

    /// Power in microwatts for an intensity in per-mille: intensities above
    /// one are refused, as is a power above the profile's maximum.
    pub fn laser_power_for_intensity(&self, intensity_permille: u32) -> (r: Result<u64, LaserError>)
        ensures
            intensity_permille > 1000 ==> r == Err::<u64, LaserError>(LaserError::SafetyViolation),
            intensity_permille <= 1000 ==> ({
                let limit = if self.profile().max_power_uw < safe_limit(self.profile(), self.config().laser_type) {
                    self.profile().max_power_uw as int
                } else {
                    safe_limit(self.profile(), self.config().laser_type)
                };
                let power = intensity_permille * limit / 1000;
                &&& power > self.profile().max_power_uw ==> r == Err::<u64, LaserError>(LaserError::SafetyViolation)
                &&& power <= self.profile().max_power_uw ==> r == Ok::<u64, LaserError>(power as u64)
            }),
    {
        if intensity_permille > 1000 {
            return Err(LaserError::SafetyViolation);
        }
        let limit = self.get_effective_power_limit();
        assert(limit <= self.power_profile.max_power_uw);
        assert((intensity_permille as u64) * limit <= 1000 * 0xffff_ffffu64) by (nonlinear_arith)
            requires intensity_permille <= 1000, limit <= 0xffff_ffffu64;
        let power = (intensity_permille as u64) * limit / 1000;
        if power > self.power_profile.max_power_uw as u64 {
            return Err(LaserError::SafetyViolation);
        }
        Ok(power)
    }

    /// Applies a range measurement in adaptive mode: the profile of the
    /// measured category, with its optimal power scaled for the weather and
    /// visibility (and capped at the maximum) when the environment is known.
    pub fn apply_range_measurement(&mut self, distance_cm: u32, env: Option<EnvironmentalImpact>) -> (r: Result<(), LaserError>)
        ensures
            !old(self).adaptive() || !old(self).has_range_detector() ==> r == Err::<(), LaserError>(LaserError::HardwareUnavailable)
                && final(self).profile() == old(self).profile(),
            old(self).adaptive() && old(self).has_range_detector() ==> r is Ok && final(self).profile() == measured_profile(distance_cm, env),
            final(self).safety() == old(self).safety(),
            final(self).ecc_engine() == old(self).ecc_engine(),
            final(self).active() == old(self).active(),
            final(self).wf() == old(self).wf(),
            final(self).config() == old(self).config(),
            final(self).adaptive() == old(self).adaptive(),
            final(self).has_range_detector() == old(self).has_range_detector(),
            final(self).optical_ecc_enabled() == old(self).optical_ecc_enabled(),
    {
        if !self.adaptive_mode || !self.range_detector_attached {
            return Err(LaserError::HardwareUnavailable);
        }
        let category = RangeDetectorCategory::from_distance(distance_cm);
        let base = PowerProfile::for_range_category(&category);
        match env {
            None => {
                self.power_profile = base;
            },
            Some(e) => {
                let p = compensate_power(base.optimal_power_uw, e.weather, e.visibility_cm);
                let optimal: u32 = if p < base.max_power_uw as u64 { p as u32 } else { base.max_power_uw };
                self.power_profile = PowerProfile { optimal_power_uw: optimal, ..base };
            },
        }
        Ok(())
    }

    /// Adjusts the optimal power for the weather and visibility, capped at the
    /// eye-safe limit for this laser.
    pub fn adjust_power_for_weather(&mut self, weather: WeatherCondition, visibility_cm: u32) -> (r: Result<(), LaserError>)
        ensures
            r is Ok,
            ({
                let p = compensated_power(old(self).profile().optimal_power_uw, weather, visibility_cm);
                let limit = safe_limit(old(self).profile(), old(self).config().laser_type);
                final(self).profile() == PowerProfile {
                    optimal_power_uw: (if p < limit { p } else { limit }) as u32,
                    ..old(self).profile()
                }
            }),
            final(self).wf() == old(self).wf(),
            final(self).config() == old(self).config(),
            final(self).active() == old(self).active(),
            final(self).safety() == old(self).safety(),
            final(self).adaptive() == old(self).adaptive(),
            final(self).has_range_detector() == old(self).has_range_detector(),
            final(self).optical_ecc_enabled() == old(self).optical_ecc_enabled(),
    {
        let p = compensate_power(self.power_profile.optimal_power_uw, weather, visibility_cm);
        let limit = self.power_profile.safe_power_limit(&self.config.laser_type);
        assert(limit <= self.power_profile.max_power_uw);
        let optimal: u64 = if p < limit { p } else { limit };
        self.power_profile.optimal_power_uw = optimal as u32;
        Ok(())
    }

    /// Burst mode: keeps the current profile but for its optimal power,
    /// which becomes the burst-compensated power given.
    pub fn apply_burst_power(&mut self, optimal_power_uw: u32)
        ensures
            final(self).profile() == (PowerProfile { optimal_power_uw, ..old(self).profile() }),
            final(self).wf() == old(self).wf(),
            final(self).config() == old(self).config(),
            final(self).adaptive() == old(self).adaptive(),
            final(self).has_range_detector() == old(self).has_range_detector(),
            final(self).optical_ecc_enabled() == old(self).optical_ecc_enabled(),
    {
        self.power_profile.optimal_power_uw = optimal_power_uw;
    }

    /// Applies the profile of the newest range category in adaptive mode.
    pub fn update_power_profile(&mut self, category: Option<RangeDetectorCategory>) -> (r: Result<(), LaserError>)
        ensures
            r is Ok,
            old(self).adaptive() && old(self).has_range_detector() && category is Some ==> final(self).profile()
                == profile_for(category->0),
            !(old(self).adaptive() && old(self).has_range_detector() && category is Some) ==> final(self).profile()
                == old(self).profile(),
            final(self).wf() == old(self).wf(),
            final(self).config() == old(self).config(),
            final(self).adaptive() == old(self).adaptive(),
            final(self).has_range_detector() == old(self).has_range_detector(),
            final(self).optical_ecc_enabled() == old(self).optical_ecc_enabled(),
    {
        if !self.adaptive_mode || !self.range_detector_attached {
            return Ok(());
        }
        match category {
            Some(c) => {
                self.power_profile = PowerProfile::for_range_category(&c);
            },
            None => {},
        }
        Ok(())
    }

    /// The modulation scheme for the next transmission: the configured one
    /// outside adaptive mode, else the adaptive choice for the range category,
    /// environment and signal quality.
    pub fn select_optimal_modulation(
        &self,
        category: Option<RangeDetectorCategory>,
        env: Option<EnvironmentalImpact>,
        signal_permille: u32,
    ) -> (r: ModulationScheme)
        ensures
            !self.adaptive() || !self.has_range_detector() ==> r == self.config().modulation,
            self.adaptive() && self.has_range_detector() ==> r == adaptive_modulation(
                self.config().modulation,
                category,
                env,
                signal_permille,
            ),
    {
        if !self.adaptive_mode || !self.range_detector_attached {
            return self.config.modulation;
        }
        match category {
            Some(RangeDetectorCategory::Close) => {
                let calm = match env {
                    None => true,
                    Some(e) => e.attenuation_permille < 1200,
                };
                if signal_permille > 800 && calm {
                    ModulationScheme::Ook
                } else {
                    ModulationScheme::Manchester
                }
            },
            Some(RangeDetectorCategory::Medium) => {
                if signal_permille > 600 {
                    ModulationScheme::Pwm
                } else {
                    ModulationScheme::Fsk
                }
            },
            Some(RangeDetectorCategory::Far) => {
                let poor = match env {
                    None => false,
                    Some(e) => e.visibility_cm < 30000,
                };
                if poor {
                    ModulationScheme::QrProjection
                } else {
                    ModulationScheme::Manchester
                }
            },
            Some(RangeDetectorCategory::Extreme) => ModulationScheme::QrProjection,
            None => {
                let attenuated = match env {
                    None => false,
                    Some(e) => e.attenuation_permille > 1500,
                };
                if signal_permille < 500 {
                    ModulationScheme::QrProjection
                } else if attenuated {
                    ModulationScheme::Manchester
                } else {
                    self.config.modulation
                }
            },
        }
    }
}

// ---------------------------------------------------------------------------
// Safety monitoring and power management
// ---------------------------------------------------------------------------

/// The power an intensity asks for, in microwatts, or the refusal.
pub open spec fn intensity_power(l: LaserEngine, intensity_permille: u32) -> Result<u64, LaserError> {
    if intensity_permille > 1000 {
        Err(LaserError::SafetyViolation)
    } else {
        let limit = if l.profile().max_power_uw < safe_limit(l.profile(), l.config().laser_type) {
            l.profile().max_power_uw as int
        } else {
            safe_limit(l.profile(), l.config().laser_type)
        };
        let power = intensity_permille * limit / 1000;
        if power > l.profile().max_power_uw {
            Err(LaserError::SafetyViolation)
        } else {
            Ok(power as u64)
        }
    }
}

/// Battery readings, in fixed units.
#[derive(Debug, Clone, Copy, PartialEq, Eq, Structural)]
pub struct BatteryState {
    pub voltage_mv: u32,
    pub current_ma: i32,
    /// Remaining capacity, per-mille.
    pub capacity_permille: u32,
    /// Thousandths of a degree Celsius.
    pub temperature_mdeg_c: i32,
    pub estimated_runtime_min: u32,
}

/// Power scaling for a battery, per-mille: 30% below 20% charge, 60% below
/// half, 80% with under two hours left, else full; times 70% above 40 °C
/// or 110% below freezing.
pub open spec fn battery_multiplier(b: BatteryState) -> int {
    let p: int = if b.capacity_permille < 200 {
        300
    } else if b.capacity_permille < 500 {
        600
    } else if b.estimated_runtime_min < 120 {
        800
    } else {
        1000
    };
    let t: int = if b.temperature_mdeg_c > 40000 {
        700
    } else if b.temperature_mdeg_c < 0 {
        1100
    } else {
        1000
    };
    p * t / 1000
}

/// The optimal power scaled by a multiplier, then capped at the maximum and
/// raised to the minimum.
pub open spec fn scaled_power(optimal: int, max: int, min: int, multiplier: int) -> int {
    let scaled = optimal * multiplier / 1000;
    let capped = if scaled < max { scaled } else { max };
    if capped > min { capped } else { min }
}

/// Energy delivered is within 1 kJ and the optimal power within the
/// eye-safe limit.
pub open spec fn power_safe(l: LaserEngine) -> bool {
    safe_state(l.safety(), l.profile(), l.config().laser_type)
}

/// Safety of a monitor's readings under a profile for a laser type.
pub open spec fn safe_state(s: SafetyMonitor, p: PowerProfile, t: LaserType) -> bool {
    s.total_energy_uj <= 1_000_000_000 && p.optimal_power_uw <= safe_limit(p, t)
}

/// A violation count after one more violation, saturating.
pub open spec fn bumped(v: u32) -> u32 {
    if v < u32::MAX { (v + 1) as u32 } else { u32::MAX }
}

/// The outcome of a safety check during operation: unsafe readings with more
/// than three violations (counting this one) end in a shutdown, which
/// succeeds; otherwise an optimal power above the eye-safe limit is refused.
pub open spec fn monitor_result(s: SafetyMonitor, p: PowerProfile, t: LaserType) -> Result<(), LaserError> {
    if safe_state(s, p, t) || bumped(s.eye_safety_violations) > 3 || p.optimal_power_uw <= safe_limit(p, t) {
        Ok(())
    } else {
        Err(LaserError::SafetyViolation)
    }
}

/// The monitor after a safety check at `now_ms`: unchanged when safe; else one
/// more violation, and past three a shutdown, which counts another and
/// marks the time.
pub open spec fn monitor_safety_after(s: SafetyMonitor, p: PowerProfile, t: LaserType, now_ms: u64) -> SafetyMonitor {
    if safe_state(s, p, t) {
        s
    } else if bumped(s.eye_safety_violations) > 3 {
        SafetyMonitor {
            last_activity_ms: now_ms,
            eye_safety_violations: bumped(bumped(s.eye_safety_violations)),
            ..s
        }
    } else {
        SafetyMonitor { eye_safety_violations: bumped(s.eye_safety_violations), ..s }
    }
}

pub open spec fn sat_add_u64(a: u64, b: u64) -> u64 {
    if a + b > u64::MAX { u64::MAX } else { (a + b) as u64 }
}

pub open spec fn elapsed_since(now_ms: u64, then_ms: u64) -> u64 {
    if now_ms >= then_ms { (now_ms - then_ms) as u64 } else { 0 }
}

/// Energy per unit of time since the last activity, in milliwatts (zero
/// when no time has passed).
pub open spec fn power_efficiency(l: LaserEngine, now_ms: u64) -> u64 {
    let uptime = elapsed_since(now_ms, l.safety().last_activity_ms);
    if uptime > 0 { l.safety().total_energy_uj / uptime } else { 0 }
}

/// Duty cycle in per-mille for a data rate and a required power: the rate
/// as a share of 1 Mbit/s times the power as a share of the maximum (each
/// at most one), kept between 10% and 100%.
pub open spec fn duty_cycle(rate_bps: u32, required_uw: u32, max_uw: u32) -> int {
    let base: int = if rate_bps / 1000 < 1000 { rate_bps as int / 1000 } else { 1000 };
    let pf: int = if max_uw == 0 {
        1000
    } else if required_uw as int * 1000 / (max_uw as int) < 1000 {
        required_uw as int * 1000 / max_uw as int
    } else {
        1000
    };
    let d = base * pf / 1000;
    if d < 100 { 100 } else if d > 1000 { 1000 } else { d }
}

/// Energy an operation takes at a power, microjoules.
pub open spec fn operation_energy_uj(power_uw: u32, duration_ms: u64) -> int {
    power_uw as int * duration_ms as int / 1000
}

/// Usable battery energy, microjoules: 80% of 40 kJ.
pub open spec fn usable_energy_uj() -> int {
    32_000_000_000
}

/// Power budget of an operation, in fixed units.
#[derive(Debug, Clone)]
pub struct PowerBudget {
    pub operation: String,
    pub energy_required_uj: u128,
    pub estimated_duration_ms: u64,
    pub can_complete_operation: bool,
    /// Parts per million of the battery's 40 kJ.
    pub estimated_battery_drain_ppm: u128,
    pub recommended_power_level_uw: u64,
}

/// Power use over time, in fixed units.
#[derive(Debug, Clone, Copy, PartialEq, Eq, Structural)]
pub struct PowerStatistics {
    pub total_energy_consumed_uj: u64,
    pub average_power_uw: u32,
    pub peak_power_uw: u32,
    pub duty_cycle_permille: u32,
    /// Milliwatts.
    pub efficiency_rating_mw: u64,
}

/// Diagnostics of the laser channel.
#[derive(Debug, Clone)]
pub struct LaserChannelDiagnostics {
    pub is_active: bool,
    pub alignment_status: AlignmentStatus,
    pub power_consumption_uw: u32,
    /// Milliwatts.
    pub power_efficiency_mw: u64,
    pub power_safe: bool,
    pub battery_state: Option<BatteryState>,
    pub power_statistics: PowerStatistics,
    pub detected_failures: Vec<LaserError>,
    pub optical_ecc_enabled: bool,
    pub adaptive_mode: bool,
}

pub open spec fn battery_texts(b: Option<BatteryState>) -> Seq<Seq<char>> {
    match b {
        None => seq![],
        Some(b) => {
            let a: Seq<Seq<char>> = if b.capacity_permille < 150 {
                seq!["Battery critically low. Switching to emergency power mode."@]
            } else if b.capacity_permille < 300 {
                seq!["Battery low. Consider reducing transmission power."@]
            } else {
                seq![]
            };
            let r: Seq<Seq<char>> = if b.estimated_runtime_min < 60 {
                seq!["Estimated runtime very low. Enable burst mode for power saving."@]
            } else {
                seq![]
            };
            let t: Seq<Seq<char>> = if b.temperature_mdeg_c > 45000 {
                seq!["High battery temperature detected. Reducing power to prevent damage."@]
            } else {
                seq![]
            };
            a + r + t
        },
    }
}

/// Power recommendations: for a battery that is critically low (under 15%)
/// or low (under 30%), with under an hour left, or above 45 °C; and for an
/// efficiency under 500 mW.
pub open spec fn power_recommendation_texts(b: Option<BatteryState>, efficiency_mw: u64) -> Seq<Seq<char>> {
    battery_texts(b) + if efficiency_mw < 500 {
        seq!["Low power efficiency detected. Consider duty cycle optimization."@]
    } else {
        Seq::<Seq<char>>::empty()
    }
}

impl LaserEngine {
    pub fn get_current_power_consumption(&self) -> (r: u32)
        ensures
            r == self.profile().optimal_power_uw,
    {
        self.power_profile.optimal_power_uw
    }

    /// Whether energy and power are within the safety limits.
    pub fn is_power_safe(&self) -> (r: bool)
        ensures
            r == power_safe(*self),
    {
        if self.safety_monitor.total_energy_uj > 1_000_000_000 {
            return false;
        }
        let limit = self.power_profile.safe_power_limit(&self.config.laser_type);
        self.power_profile.optimal_power_uw as u64 <= limit
    }

    /// Refuses to transmit with an optimal power above the eye-safe limit or
    /// more than 1 kJ delivered.
    pub fn check_safety(&self) -> (r: Result<(), LaserError>)
        ensures
            power_safe(*self) ==> r is Ok,
            !power_safe(*self) ==> r == Err::<(), LaserError>(LaserError::SafetyViolation),
    {
        let limit = self.power_profile.safe_power_limit(&self.config.laser_type);
        if self.power_profile.optimal_power_uw as u64 > limit {
            return Err(LaserError::SafetyViolation);
        }
        if self.safety_monitor.total_energy_uj > 1_000_000_000 {
            return Err(LaserError::SafetyViolation);
        }
        Ok(())
    }

    /// Sets the intensity for a 1 ms pulse and returns the power to drive:
    /// refused as for `laser_power_for_intensity`; otherwise the pulse's
    /// energy is counted and the activity time updated.
    pub fn set_laser_intensity(&mut self, intensity_permille: u32, now_ms: u64) -> (r: Result<u64, LaserError>)
        ensures
            r == intensity_power(*old(self), intensity_permille),
            r matches Ok(p) ==> final(self).safety() == (SafetyMonitor {
                last_activity_ms: now_ms,
                total_energy_uj: sat_add_u64(old(self).safety().total_energy_uj, p),
                ..old(self).safety()
            }),
            r is Err ==> final(self).safety() == old(self).safety(),
            final(self).profile() == old(self).profile(),
            final(self).config() == old(self).config(),
            final(self).wf() == old(self).wf(),
            final(self).adaptive() == old(self).adaptive(),
            final(self).has_range_detector() == old(self).has_range_detector(),
            final(self).ecc_engine() == old(self).ecc_engine(),
            final(self).active() == old(self).active(),
            final(self).optical_ecc_enabled() == old(self).optical_ecc_enabled(),
    {
        let r = self.laser_power_for_intensity(intensity_permille);
        match r {
            Ok(p) => {
                let e = self.safety_monitor.total_energy_uj.saturating_add(p);
                self.safety_monitor.total_energy_uj = e;
                self.safety_monitor.last_activity_ms = now_ms;
            },
            Err(_) => {},
        }
        r
    }

    /// Turns the laser off and counts a violation.
    pub fn emergency_shutdown(&mut self, now_ms: u64) -> (r: Result<(), LaserError>)
        ensures
            r == Ok::<(), LaserError>(()),
            final(self).safety().eye_safety_violations == if old(self).safety().eye_safety_violations < u32::MAX {
                (old(self).safety().eye_safety_violations + 1) as u32
            } else {
                u32::MAX
            },
            final(self).safety().total_energy_uj == old(self).safety().total_energy_uj,
            final(self).safety().last_activity_ms == now_ms,
            final(self).profile() == old(self).profile(),
            final(self).config() == old(self).config(),
            final(self).wf() == old(self).wf(),
            final(self).adaptive() == old(self).adaptive(),
            final(self).has_range_detector() == old(self).has_range_detector(),
            final(self).ecc_engine() == old(self).ecc_engine(),
            final(self).active() == old(self).active(),
            final(self).optical_ecc_enabled() == old(self).optical_ecc_enabled(),
    {
        let _ = self.set_laser_intensity(0, now_ms);
        self.safety_monitor.eye_safety_violations = self.safety_monitor.eye_safety_violations.saturating_add(1);
        Ok(())
    }

    /// A safety check during operation: when energy or power is unsafe, a
    /// violation is counted; past three violations the laser is shut down,
    /// otherwise an optimal power above the eye-safe limit is refused.
    pub fn monitor_power_safety(&mut self, now_ms: u64) -> (r: Result<(), LaserError>)
        ensures
            r == monitor_result(old(self).safety(), old(self).profile(), old(self).config().laser_type),
            final(self).safety() == monitor_safety_after(old(self).safety(), old(self).profile(), old(self).config().laser_type, now_ms),
            final(self).profile() == old(self).profile(),
            final(self).config() == old(self).config(),
            final(self).ecc_engine() == old(self).ecc_engine(),
            final(self).wf() == old(self).wf(),
            final(self).adaptive() == old(self).adaptive(),
            final(self).has_range_detector() == old(self).has_range_detector(),
            final(self).optical_ecc_enabled() == old(self).optical_ecc_enabled(),
            final(self).active() == old(self).active(),
    {
        if self.is_power_safe() {
            return Ok(());
        }
        self.safety_monitor.eye_safety_violations = self.safety_monitor.eye_safety_violations.saturating_add(1);
        if self.safety_monitor.eye_safety_violations > 3 {
            return self.emergency_shutdown(now_ms);
        }
        let limit = self.power_profile.safe_power_limit(&self.config.laser_type);
        if self.power_profile.optimal_power_uw as u64 > limit {
            return Err(LaserError::SafetyViolation);
        }
        Ok(())
    }

    /// Starts energy monitoring afresh for a new session.
    pub fn reset_energy_monitoring(&mut self, now_ms: u64)
        ensures
            final(self).safety() == (SafetyMonitor { last_activity_ms: now_ms, total_energy_uj: 0, eye_safety_violations: 0 }),
            final(self).profile() == old(self).profile(),
            final(self).config() == old(self).config(),
            final(self).wf() == old(self).wf(),
            final(self).adaptive() == old(self).adaptive(),
            final(self).optical_ecc_enabled() == old(self).optical_ecc_enabled(),
    {
        self.safety_monitor = SafetyMonitor { last_activity_ms: now_ms, total_energy_uj: 0, eye_safety_violations: 0 };
    }

    /// Energy delivered (microjoules), violations, and time since the last
    /// activity (milliseconds).
    pub fn get_safety_stats(&self, now_ms: u64) -> (r: (u64, u32, u64))
        ensures
            r == (self.safety().total_energy_uj, self.safety().eye_safety_violations, elapsed_since(now_ms, self.safety().last_activity_ms)),
    {
        let uptime: u64 = if now_ms >= self.safety_monitor.last_activity_ms { now_ms - self.safety_monitor.last_activity_ms } else { 0 };
        (self.safety_monitor.total_energy_uj, self.safety_monitor.eye_safety_violations, uptime)
    }

    pub fn get_power_efficiency(&self, now_ms: u64) -> (r: u64)
        ensures
            r == power_efficiency(*self, now_ms),
    {
        let uptime: u64 = if now_ms >= self.safety_monitor.last_activity_ms { now_ms - self.safety_monitor.last_activity_ms } else { 0 };
        if uptime > 0 {
            self.safety_monitor.total_energy_uj / uptime
        } else {
            0
        }
    }

    /// Scales the optimal power for the battery's charge, remaining time and
    /// temperature, within the profile's bounds; without a battery reading
    /// nothing changes.
    pub fn optimize_power_usage(&mut self, battery: Option<BatteryState>) -> (r: Result<(), LaserError>)
        ensures
            r is Ok,
            final(self).profile() == match battery {
                None => old(self).profile(),
                Some(b) => PowerProfile {
                    optimal_power_uw: scaled_power(
                        old(self).profile().optimal_power_uw as int,
                        old(self).profile().max_power_uw as int,
                        old(self).profile().min_power_uw as int,
                        battery_multiplier(b),
                    ) as u32,
                    ..old(self).profile()
                },
            },
            final(self).safety() == old(self).safety(),
            final(self).config() == old(self).config(),
            final(self).wf() == old(self).wf(),
            final(self).adaptive() == old(self).adaptive(),
            final(self).has_range_detector() == old(self).has_range_detector(),
            final(self).ecc_engine() == old(self).ecc_engine(),
            final(self).active() == old(self).active(),
            final(self).optical_ecc_enabled() == old(self).optical_ecc_enabled(),
    {
        match battery {
            None => {},
            Some(b) => {
                let p: u64 = if b.capacity_permille < 200 {
                    300
                } else if b.capacity_permille < 500 {
                    600
                } else if b.estimated_runtime_min < 120 {
                    800
                } else {
                    1000
                };
                let t: u64 = if b.temperature_mdeg_c > 40000 {
                    700
                } else if b.temperature_mdeg_c < 0 {
                    1100
                } else {
                    1000
                };
                let m = p * t / 1000;
                assert(m <= 1100) by (nonlinear_arith)
                    requires m == p * t / 1000, p <= 1000, t <= 1100;
                let o = self.power_profile.optimal_power_uw as u64;
                assert(o * m <= 0xffff_ffffu64 * 1100) by (nonlinear_arith)
                    requires o <= 0xffff_ffffu64, m <= 1100;
                let scaled = o * m / 1000;
                let max = self.power_profile.max_power_uw as u64;
                let min = self.power_profile.min_power_uw as u64;
                let capped = if scaled < max { scaled } else { max };
                let v = if capped > min { capped } else { min };
                self.power_profile.optimal_power_uw = v as u32;
            },
        }
        Ok(())
    }

    /// The duty cycle, per-mille, for a data rate and a required power.
    pub fn calculate_optimal_duty_cycle(&self, data_rate_bps: u32, required_power_uw: u32) -> (r: u32)
        ensures
            r == duty_cycle(data_rate_bps, required_power_uw, self.profile().max_power_uw),
            100 <= r <= 1000,
    {
        let base: u64 = if data_rate_bps / 1000 < 1000 { (data_rate_bps / 1000) as u64 } else { 1000 };
        let max = self.power_profile.max_power_uw as u64;
        let pf: u64 = if max == 0 {
            1000
        } else if (required_power_uw as u64) * 1000 / max < 1000 {
            (required_power_uw as u64) * 1000 / max
        } else {
            1000
        };
        assert(base * pf <= 1_000_000) by (nonlinear_arith)
            requires base <= 1000, pf <= 1000;
        let d = base * pf / 1000;
        if d < 100 {
            100
        } else if d > 1000 {
            1000
        } else {
            d as u32
        }
    }

    /// Share of the battery's 40 kJ that running for a duration at the
    /// current power takes, in parts per million.
    pub fn predict_battery_drain(&self, duration_ms: u64) -> (r: u128)
        ensures
            r == self.profile().optimal_power_uw as int * duration_ms as int / 40_000_000,
    {
        let p = self.power_profile.optimal_power_uw as u128;
        assert(p * (duration_ms as u128) <= 0xffff_ffffu128 * 0xffff_ffff_ffff_ffffu128) by (nonlinear_arith)
            requires p <= 0xffff_ffffu128;
        p * (duration_ms as u128) / 40_000_000
    }

    /// The power budget of an operation at the current power: the energy it
    /// takes, whether the usable 32 kJ cover it, the share of the battery it
    /// drains, and the power to use (the current one when covered, else the
    /// one the usable energy sustains for the duration).
    pub fn calculate_power_budget(&self, operation: &str, duration_ms: u64) -> (r: PowerBudget)
        ensures
            r.operation@ == operation@,
            r.energy_required_uj == operation_energy_uj(self.profile().optimal_power_uw, duration_ms),
            r.estimated_duration_ms == duration_ms,
            r.can_complete_operation == (operation_energy_uj(self.profile().optimal_power_uw, duration_ms) <= usable_energy_uj()),
            r.estimated_battery_drain_ppm == operation_energy_uj(self.profile().optimal_power_uw, duration_ms) / 40_000,
            r.can_complete_operation ==> r.recommended_power_level_uw == self.profile().optimal_power_uw,
            !r.can_complete_operation ==> r.recommended_power_level_uw == usable_energy_uj() * 1000 / duration_ms as int,
    {
        let p = self.power_profile.optimal_power_uw as u128;
        assert(p * (duration_ms as u128) <= 0xffff_ffffu128 * 0xffff_ffff_ffff_ffffu128) by (nonlinear_arith)
            requires p <= 0xffff_ffffu128;
        let energy: u128 = p * (duration_ms as u128) / 1000;
        let can = energy <= 32_000_000_000;
        let recommended: u64 = if can {
            p as u64
        } else {
            assert(duration_ms > 0) by (nonlinear_arith)
                requires energy == p * (duration_ms as u128) / 1000, energy > 32_000_000_000;
            (32_000_000_000_000u64 / duration_ms)
        };
        PowerBudget {
            operation: operation.to_owned(),
            energy_required_uj: energy,
            estimated_duration_ms: duration_ms,
            can_complete_operation: can,
            estimated_battery_drain_ppm: energy / 40_000,
            recommended_power_level_uw: recommended,
        }
    }

    /// Power management recommendations for the battery and the current
    /// efficiency.
    pub fn get_power_recommendations(&self, battery: Option<BatteryState>, now_ms: u64) -> (r: Vec<String>)
        ensures
            r@.map_values(|x: String| x@) == power_recommendation_texts(battery, power_efficiency(*self, now_ms)),
    {
        let mut out: Vec<String> = Vec::new();
        let ghost mut expected: Seq<Seq<char>> = seq![];
        match battery {
            None => {},
            Some(b) => {
                if b.capacity_permille < 150 {
                    out.push("Battery critically low. Switching to emergency power mode.".to_owned());
                    proof { expected = expected.push("Battery critically low. Switching to emergency power mode."@); }
                } else if b.capacity_permille < 300 {
                    out.push("Battery low. Consider reducing transmission power.".to_owned());
                    proof { expected = expected.push("Battery low. Consider reducing transmission power."@); }
                }
                assert(out@.map_values(|x: String| x@) =~= expected);
                if b.estimated_runtime_min < 60 {
                    out.push("Estimated runtime very low. Enable burst mode for power saving.".to_owned());
                    proof { expected = expected.push("Estimated runtime very low. Enable burst mode for power saving."@); }
                }
                assert(out@.map_values(|x: String| x@) =~= expected);
                if b.temperature_mdeg_c > 45000 {
                    out.push("High battery temperature detected. Reducing power to prevent damage.".to_owned());
                    proof { expected = expected.push("High battery temperature detected. Reducing power to prevent damage."@); }
                }
                assert(out@.map_values(|x: String| x@) =~= expected);
            },
        }
        assert(expected =~= battery_texts(battery));
        let efficiency = self.get_power_efficiency(now_ms);
        if efficiency < 500 {
            out.push("Low power efficiency detected. Consider duty cycle optimization.".to_owned());
            proof { expected = expected.push("Low power efficiency detected. Consider duty cycle optimization."@); }
        }
        assert(out@.map_values(|x: String| x@) =~= expected);
        assert(expected =~= power_recommendation_texts(battery, power_efficiency(*self, now_ms)));
        out
    }

    /// Diagnostics of the channel for an activity state and alignment.
    pub fn get_channel_diagnostics(&self, active: bool, alignment: AlignmentStatus, now_ms: u64) -> (r: LaserChannelDiagnostics)
        ensures
            r.is_active == active,
            r.alignment_status == alignment,
            r.power_consumption_uw == self.profile().optimal_power_uw,
            r.power_efficiency_mw == power_efficiency(*self, now_ms),
            r.power_safe == power_safe(*self),
            r.battery_state is None,
            r.power_statistics == (PowerStatistics {
                total_energy_consumed_uj: self.safety().total_energy_uj,
                average_power_uw: self.profile().optimal_power_uw,
                peak_power_uw: self.profile().max_power_uw,
                duty_cycle_permille: 500,
                efficiency_rating_mw: power_efficiency(*self, now_ms),
            }),
            r.detected_failures@ == channel_failures(active, alignment, power_safe(*self)),
            r.optical_ecc_enabled == self.optical_ecc_enabled(),
            r.adaptive_mode == self.adaptive(),
    {
        let efficiency = self.get_power_efficiency(now_ms);
        let safe = self.is_power_safe();
        LaserChannelDiagnostics {
            is_active: active,
            alignment_status: alignment,
            power_consumption_uw: self.power_profile.optimal_power_uw,
            power_efficiency_mw: efficiency,
            power_safe: safe,
            battery_state: None,
            power_statistics: PowerStatistics {
                total_energy_consumed_uj: self.safety_monitor.total_energy_uj,
                average_power_uw: self.power_profile.optimal_power_uw,
                peak_power_uw: self.power_profile.max_power_uw,
                duty_cycle_permille: 500,
                efficiency_rating_mw: efficiency,
            },
            detected_failures: detect_channel_failures(active, alignment, safe),
            optical_ecc_enabled: self.optical_ecc.is_some(),
            adaptive_mode: self.adaptive_mode,
        }
    }
}


// ---------------------------------------------------------------------------
// Transmission
// ---------------------------------------------------------------------------

/// A distance measured by the range detector, with the surroundings it
/// reports.
#[derive(Debug, Clone, Copy, PartialEq, Eq, Structural)]
pub struct RangeReading {
    pub distance_cm: u32,
    pub env: Option<EnvironmentalImpact>,
}

/// A transmission ready for the hardware, and the safety check made once it
/// has been sent.
#[derive(Debug)]
pub struct Transmission {
    pub plan: TransmissionPlan,
    pub safety: Result<(), LaserError>,
}

/// The lower of a profile's maximum and its eye-safe limit: the power of a
/// full-intensity pulse.
pub open spec fn effective_limit(p: PowerProfile, t: LaserType) -> int {
    if p.max_power_uw < safe_limit(p, t) {
        p.max_power_uw as int
    } else {
        safe_limit(p, t)
    }
}

/// Energy counted after pulsing each step once from `e`: a full-intensity
/// step adds `full_uw` (saturating), an off step nothing.
pub open spec fn energy_after(e: u64, steps: Seq<LaserStep>, full_uw: int) -> u64
    decreases steps.len(),
{
    if steps.len() == 0 {
        e
    } else {
        let before = energy_after(e, steps.drop_last(), full_uw);
        if steps.last().intensity_permille == 1000 {
            sat_add_u64(before, full_uw as u64)
        } else {
            before
        }
    }
}

/// Every step is either off or at full intensity.
pub open spec fn on_off(steps: Seq<LaserStep>) -> bool {
    forall|k: int| 0 <= k < steps.len() ==> #[trigger] steps[k].intensity_permille == 0 || steps[k].intensity_permille == 1000
}

/// Atmospheric attenuation over a distance, thousandths of a decibel: 0.1 dB
/// per 100 m at 650 nm, growing with the square of the wavelength.
pub open spec fn range_attenuation_mdb(distance_cm: u32, wavelength_nm: u32) -> u32 {
    let a = distance_cm as int * wavelength_nm as int * wavelength_nm as int / 42_250_000;
    if a > u32::MAX { u32::MAX } else { a as u32 }
}

/// The quality record a range measurement stands for: no errors yet, a
/// good signal, low turbulence and noise, and the attenuation of the distance.
pub open spec fn range_metrics(distance_cm: u32, wavelength_nm: u32, now_ms: u64) -> OpticalQualityMetrics {
    OpticalQualityMetrics {
        ber_ppm: 0,
        per_ppm: 0,
        signal_strength_permille: 800,
        atmospheric_attenuation_mdb: range_attenuation_mdb(distance_cm, wavelength_nm),
        turbulence_index_permille: 100,
        background_noise_permille: 100,
        range_cm: distance_cm,
        timestamp_ms: now_ms,
    }
}

/// Optical engine sizes that a retune for `m` can build a code for.
pub open spec fn ecc_retune_fits(e: OpticalECC, m: OpticalQualityMetrics) -> bool {
    e.adaptation_enabled() ==> e.data_shards() + crate::optical_ecc::parity_for_strength(
        crate::optical_ecc::strength_for(
            crate::optical_ecc::range_category_of(m.range_cm),
            crate::optical_ecc::condition_from_metrics(m),
        ),
    ) <= 256
}

/// The frame a transmission sends: the optical engine's coding when it is
/// enabled, else the Reed-Solomon frame.
pub open spec fn encoded_frame(optical: bool, data: Seq<u8>) -> Seq<u8> {
    if optical {
        interleaved_form(convolutional_form(data))
    } else {
        rs_frame(data)
    }
}

/// The steps of a frame under a scheme: on-off keying at the profile's data
/// rate; frequency-shift keying, Manchester coding and pulse-width modulation
/// at the configured rate; none for a QR projection.
pub open spec fn plan_steps(scheme: ModulationScheme, encoded: Seq<u8>, profile_rate: u32, config_rate: u32) -> Seq<LaserStep> {
    match scheme {
        ModulationScheme::Ook => ook_seq(bits_of(encoded), (1_000_000int / profile_rate as int) as u64),
        ModulationScheme::Fsk => fsk_seq(bits_of(encoded), (1_000_000int / config_rate as int) as u64),
        ModulationScheme::Manchester => manchester_seq(bits_of(encoded), (500_000int / config_rate as int) as u64),
        ModulationScheme::Pwm => pwm_seq(encoded, (1_000_000int / config_rate as int) as u64),
        ModulationScheme::QrProjection => Seq::empty(),
    }
}

/// The scheme a transmission uses: in adaptive mode the adaptive choice for
/// the measured distance's category and surroundings at the nominal 0.8
/// signal; otherwise the configured one.
pub open spec fn transmit_scheme(l: LaserEngine, reading: Option<RangeReading>) -> ModulationScheme {
    if l.adaptive() && l.has_range_detector() && reading is Some {
        adaptive_modulation(
            l.config().modulation,
            Some(crate::range_detector::category_of_distance(reading->0.distance_cm)),
            reading->0.env,
            800,
        )
    } else {
        l.config().modulation
    }
}

/// The plan carries `steps`, or the encoded frame for a QR projection.
pub open spec fn plan_is(plan: TransmissionPlan, scheme: ModulationScheme, encoded: Seq<u8>, steps: Seq<LaserStep>) -> bool {
    match plan {
        TransmissionPlan::Steps(v) => scheme != ModulationScheme::QrProjection && v@ == steps,
        TransmissionPlan::QrProjection(v) => scheme == ModulationScheme::QrProjection && v@ == encoded,
    }
}

impl LaserEngine {
    /// Pulses each step once at `now_ms`, counting its energy.
    fn play_steps(&mut self, steps: &Vec<LaserStep>, now_ms: u64)
        requires
            on_off(steps@),
        ensures
            final(self).safety() == (SafetyMonitor {
                total_energy_uj: energy_after(
                    old(self).safety().total_energy_uj,
                    steps@,
                    effective_limit(old(self).profile(), old(self).config().laser_type),
                ),
                last_activity_ms: if steps@.len() > 0 { now_ms } else { old(self).safety().last_activity_ms },
                ..old(self).safety()
            }),
            final(self).profile() == old(self).profile(),
            final(self).config() == old(self).config(),
            final(self).ecc_engine() == old(self).ecc_engine(),
            final(self).wf() == old(self).wf(),
            final(self).adaptive() == old(self).adaptive(),
            final(self).has_range_detector() == old(self).has_range_detector(),
            final(self).optical_ecc_enabled() == old(self).optical_ecc_enabled(),
            final(self).active() == old(self).active(),
    {
        let ghost full = effective_limit(self.profile(), self.config().laser_type);
        let ghost e0 = self.safety().total_energy_uj;
        let mut i: usize = 0;
        while i < steps.len()
            invariant
                i <= steps@.len(),
                on_off(steps@),
                self.profile() == old(self).profile(),
                self.config() == old(self).config(),
                self.ecc_engine() == old(self).ecc_engine(),
                self.wf() == old(self).wf(),
                self.adaptive() == old(self).adaptive(),
                self.has_range_detector() == old(self).has_range_detector(),
                self.optical_ecc_enabled() == old(self).optical_ecc_enabled(),
                self.active() == old(self).active(),
                full == effective_limit(self.profile(), self.config().laser_type),
                self.safety() == (SafetyMonitor {
                    total_energy_uj: energy_after(e0, steps@.take(i as int), full),
                    last_activity_ms: if i > 0 { now_ms } else { old(self).safety().last_activity_ms },
                    ..old(self).safety()
                }),
                e0 == old(self).safety().total_energy_uj,
            decreases steps@.len() - i,
        {
            let step = steps[i];
            assert(steps@.take(i + 1).drop_last() =~= steps@.take(i as int));
            assert(steps@.take(i + 1).last() == step);
            let _ = self.set_laser_intensity(step.intensity_permille, now_ms);
            i = i + 1;
        }
        assert(steps@.take(steps@.len() as int) =~= steps@);
    }

    /// Feeds the optical engine the quality record of a fresh range
    /// measurement, when both the engine and a range detector are present;
    /// a failed measurement (`None`) fails the update.
    pub fn update_ecc_for_range(&mut self, distance_cm: Option<u32>, now_ms: u64) -> (r: Result<(), LaserError>)
        requires
            old(self).wf(),
            distance_cm matches Some(d) ==> (old(self).ecc_engine() matches Some(e) ==> ecc_retune_fits(
                e,
                range_metrics(d, old(self).config().wavelength_nm, now_ms),
            )),
        ensures
            final(self).wf(),
            !old(self).optical_ecc_enabled() || !old(self).has_range_detector() ==> r is Ok && final(self).ecc_engine() == old(self).ecc_engine(),
            old(self).optical_ecc_enabled() && old(self).has_range_detector() && distance_cm is None ==> r == Err::<(), LaserError>(
                LaserError::TransmissionFailed,
            ) && final(self).ecc_engine() == old(self).ecc_engine(),
            old(self).optical_ecc_enabled() && old(self).has_range_detector() && distance_cm is Some ==> r is Ok && ({
                let m = range_metrics(distance_cm->0, old(self).config().wavelength_nm, now_ms);
                let e = old(self).ecc_engine()->0;
                let strength = crate::optical_ecc::strength_for(
                    crate::optical_ecc::range_category_of(m.range_cm),
                    crate::optical_ecc::condition_from_metrics(m),
                );
                final(self).ecc_engine() matches Some(ne) && {
                    &&& ne.history() == crate::optical_ecc::bounded_push(e.history(), m, 100)
                    &&& ne.data_shards() == e.data_shards()
                    &&& e.adaptation_enabled() ==> ne.parity_shards() == crate::optical_ecc::parity_for_strength(strength)
                        && ne.interleaving_depth() == crate::optical_ecc::depth_for_strength(strength)
                    &&& !e.adaptation_enabled() ==> ne.parity_shards() == e.parity_shards()
                        && ne.interleaving_depth() == e.interleaving_depth()
                }
            }),
            final(self).optical_ecc_enabled() == old(self).optical_ecc_enabled(),
            final(self).config() == old(self).config(),
            final(self).profile() == old(self).profile(),
            final(self).safety() == old(self).safety(),
            final(self).adaptive() == old(self).adaptive(),
            final(self).has_range_detector() == old(self).has_range_detector(),
            final(self).active() == old(self).active(),
    {
        if self.optical_ecc.is_none() || !self.range_detector_attached {
            return Ok(());
        }
        let d = match distance_cm {
            None => {
                return Err(LaserError::TransmissionFailed);
            },
            Some(d) => d,
        };
        let wl = self.config.wavelength_nm as u128;
        let dd = d as u128;
        assert(dd * wl <= 0xffff_ffffu128 * 0xffff_ffffu128) by (nonlinear_arith)
            requires dd <= 0xffff_ffffu128, wl <= 0xffff_ffffu128;
        let dw = dd * wl;
        assert(dw * wl <= 0xffff_ffffu128 * 0xffff_ffffu128 * 0xffff_ffffu128) by (nonlinear_arith)
            requires dw <= 0xffff_ffffu128 * 0xffff_ffffu128, wl <= 0xffff_ffffu128;
        let a = dw * wl / 42_250_000;
        let attenuation: u32 = if a > 0xffff_ffffu128 { 0xffff_ffff } else { a as u32 };
        let metrics = OpticalQualityMetrics {
            ber_ppm: 0,
            per_ppm: 0,
            signal_strength_permille: 800,
            atmospheric_attenuation_mdb: attenuation,
            turbulence_index_permille: 100,
            background_noise_permille: 100,
            range_cm: d,
            timestamp_ms: now_ms,
        };
        assert(metrics == range_metrics(d, self.config().wavelength_nm, now_ms));
        self.update_optical_quality(metrics, now_ms)
    }

    /// Sends a frame: refused when the laser is inactive or unsafe; in
    /// adaptive mode the range detector's reading (`None` when it failed)
    /// first sets the power profile and retunes the optical engine; then the
    /// frame is encoded and modulated under the chosen scheme, each pulse's
    /// energy counted, and a safety check made after sending.
    pub fn transmit_data(&mut self, data: &[u8], reading: Option<RangeReading>, now_ms: u64) -> (r: Result<Transmission, LaserError>)
        requires
            old(self).wf(),
            old(self).active() && !old(self).optical_ecc_enabled() ==> frame_encodable_len(data@.len() as int),
            old(self).active() ==> old(self).profile().data_rate_bps > 0,
            old(self).active() ==> old(self).config().data_rate_bps > 0,
            old(self).active() ==> (reading matches Some(rd) ==> (old(self).ecc_engine() matches Some(e) ==> ecc_retune_fits(
                e,
                range_metrics(rd.distance_cm, old(self).config().wavelength_nm, now_ms),
            ))),
        ensures
            final(self).wf(),
            final(self).config() == old(self).config(),
            final(self).active() == old(self).active(),
            final(self).adaptive() == old(self).adaptive(),
            final(self).optical_ecc_enabled() == old(self).optical_ecc_enabled(),
            !old(self).active() ==> r == Err::<Transmission, LaserError>(LaserError::HardwareUnavailable)
                && final(self).safety() == old(self).safety() && final(self).profile() == old(self).profile(),
            old(self).active() && !power_safe(*old(self)) ==> r == Err::<Transmission, LaserError>(LaserError::SafetyViolation)
                && final(self).safety() == old(self).safety() && final(self).profile() == old(self).profile(),
            old(self).active() && power_safe(*old(self)) && old(self).adaptive() && !old(self).has_range_detector()
                ==> r == Err::<Transmission, LaserError>(LaserError::HardwareUnavailable),
            old(self).active() && power_safe(*old(self)) && old(self).adaptive() && old(self).has_range_detector() && reading is None
                ==> r == Err::<Transmission, LaserError>(LaserError::TransmissionFailed),
            ({
                let ready = old(self).active() && power_safe(*old(self)) && (!old(self).adaptive() || (old(self).has_range_detector()
                    && reading is Some));
                let prof = if old(self).adaptive() { measured_profile(reading->0.distance_cm, reading->0.env) } else { old(self).profile() };
                let t = old(self).config().laser_type;
                let scheme = transmit_scheme(*old(self), reading);
                let enc = encoded_frame(old(self).optical_ecc_enabled(), data@);
                let steps = plan_steps(scheme, enc, prof.data_rate_bps, old(self).config().data_rate_bps);
                let mid = SafetyMonitor {
                    total_energy_uj: energy_after(old(self).safety().total_energy_uj, steps, effective_limit(prof, t)),
                    last_activity_ms: if steps.len() > 0 { now_ms } else { old(self).safety().last_activity_ms },
                    ..old(self).safety()
                };
                &&& ready && !old(self).optical_ecc_enabled() && data@.len() == 0 ==> r == Err::<Transmission, LaserError>(
                    LaserError::DataCorruption,
                ) && final(self).profile() == prof && final(self).safety() == old(self).safety()
                &&& ready && (old(self).optical_ecc_enabled() || data@.len() > 0) ==> r is Ok && {
                    &&& plan_is(r->Ok_0.plan, scheme, enc, steps)
                    &&& r->Ok_0.safety == monitor_result(mid, prof, t)
                    &&& final(self).safety() == monitor_safety_after(mid, prof, t, now_ms)
                    &&& final(self).profile() == prof
                }
            }),
    {
        if !self.active {
            return Err(LaserError::HardwareUnavailable);
        }
        match self.check_safety() {
            Ok(()) => {},
            Err(e) => {
                return Err(e);
            },
        }
        match self.monitor_power_safety(now_ms) {
            Ok(()) => {},
            Err(e) => {
                return Err(e);
            },
        }
        let mut category: Option<RangeDetectorCategory> = None;
        let mut env: Option<EnvironmentalImpact> = None;
        if self.adaptive_mode {
            if !self.range_detector_attached {
                return Err(LaserError::HardwareUnavailable);
            }
            match reading {
                None => {
                    return Err(LaserError::TransmissionFailed);
                },
                Some(rd) => {
                    let _ = self.apply_range_measurement(rd.distance_cm, rd.env);
                    let _ = self.update_ecc_for_range(Some(rd.distance_cm), now_ms);
                    category = Some(RangeDetectorCategory::from_distance(rd.distance_cm));
                    env = rd.env;
                },
            }
        }
        let scheme = self.select_optimal_modulation(category, env, 800);
        let encoded = match self.encode_with_ecc(data) {
            Ok(v) => v,
            Err(e) => {
                return Err(e);
            },
        };
        let plan = match scheme {
            ModulationScheme::QrProjection => TransmissionPlan::QrProjection(encoded),
            ModulationScheme::Ook => {
                let bits = frame_bits(encoded.as_slice());
                let steps = ook_steps(&bits, 1_000_000 / (self.power_profile.data_rate_bps as u64));
                self.play_steps(&steps, now_ms);
                TransmissionPlan::Steps(steps)
            },
            ModulationScheme::Fsk => {
                let bits = frame_bits(encoded.as_slice());
                let steps = fsk_steps(&bits, 1_000_000 / (self.config.data_rate_bps as u64));
                self.play_steps(&steps, now_ms);
                TransmissionPlan::Steps(steps)
            },
            ModulationScheme::Manchester => {
                let bits = frame_bits(encoded.as_slice());
                let steps = manchester_steps(&bits, 500_000 / (self.config.data_rate_bps as u64));
                self.play_steps(&steps, now_ms);
                TransmissionPlan::Steps(steps)
            },
            ModulationScheme::Pwm => {
                let steps = pwm_steps(encoded.as_slice(), 1_000_000 / (self.config.data_rate_bps as u64));
                self.play_steps(&steps, now_ms);
                TransmissionPlan::Steps(steps)
            },
        };
        let safety = self.monitor_power_safety(now_ms);
        Ok(Transmission { plan, safety })
    }
}

// ---------------------------------------------------------------------------
// Reception
// ---------------------------------------------------------------------------

/// Where a reception attempt reads the beam from.
#[derive(Debug, Clone, Copy, PartialEq, Eq, Structural)]
pub enum ReceptionSource {
    Photodiode,
    Camera,
}

/// The source a scheme reads: QR projections need the camera; the other
/// schemes read the photodiode when enabled, else the camera when enabled.
pub open spec fn source_for(rx: ReceptionConfig, scheme: ModulationScheme) -> Option<ReceptionSource> {
    if scheme == ModulationScheme::QrProjection {
        Some(ReceptionSource::Camera)
    } else if rx.use_photodiode {
        Some(ReceptionSource::Photodiode)
    } else if rx.use_camera {
        Some(ReceptionSource::Camera)
    } else {
        None
    }
}

/// Bytes the frequency-shift decoder reports for any signal.
pub open spec fn fsk_decoded() -> Seq<u8> {
    seq![0xAAu8, 0xBB, 0xCC]
}

/// Bytes the Manchester decoder reports for any signal.
pub open spec fn manchester_decoded() -> Seq<u8> {
    seq![0x11u8, 0x22, 0x33]
}

/// What one pass of the receive loop concludes.
#[derive(Debug)]
pub enum ReceiveStep {
    /// Reception ended, with the data or the error.
    Done(Result<Vec<u8>, LaserError>),
    /// Nothing usable yet: wait briefly and try again.
    Retry,
}

impl LaserEngine {
    /// The source to read for a scheme, if any is enabled.
    pub fn reception_source(&self, scheme: ModulationScheme) -> (r: Option<ReceptionSource>)
        ensures
            r == source_for(self.reception(), scheme),
    {
        if scheme == ModulationScheme::QrProjection {
            Some(ReceptionSource::Camera)
        } else if self.rx_config.use_photodiode {
            Some(ReceptionSource::Photodiode)
        } else if self.rx_config.use_camera {
            Some(ReceptionSource::Camera)
        } else {
            None
        }
    }

    /// One reception attempt under a scheme, given the beam's alignment and
    /// what its source delivered (for a QR projection, the payload the
    /// camera frame decoded to): a misaligned beam or a missing source
    /// fails; on-off keying, pulse-width modulation and QR projection decode
    /// the error-correcting code; the frequency-shift and Manchester decoders
    /// report fixed bytes.
    pub fn receive_attempt(&mut self, scheme: ModulationScheme, aligned: bool, raw: Result<Vec<u8>, LaserError>) -> (r: Result<Vec<u8>, LaserError>)
        requires
            old(self).wf(),
            raw matches Ok(v) ==> (!old(self).optical_ecc_enabled() ==> frame_decodable_len(v@.len() as int)),
        ensures
            final(self).wf(),
            final(self).config() == old(self).config(),
            final(self).profile() == old(self).profile(),
            final(self).safety() == old(self).safety(),
            final(self).active() == old(self).active(),
            final(self).optical_ecc_enabled() == old(self).optical_ecc_enabled(),
            !aligned ==> r == Err::<Vec<u8>, LaserError>(LaserError::AlignmentLost),
            aligned && source_for(old(self).reception(), scheme) is None ==> r == Err::<Vec<u8>, LaserError>(LaserError::ReceptionFailed),
            aligned && source_for(old(self).reception(), scheme) is Some ==> match raw {
                Err(e) => r == Err::<Vec<u8>, LaserError>(e),
                Ok(v) => match scheme {
                    ModulationScheme::Fsk => r is Ok && r->Ok_0@ == fsk_decoded(),
                    ModulationScheme::Manchester => r is Ok && r->Ok_0@ == manchester_decoded(),
                    _ => {
                        &&& old(self).optical_ecc_enabled() ==> r is Ok && interleaved_form(convolutional_form(r->Ok_0@)) == v@
                        &&& !old(self).optical_ecc_enabled() ==> (r is Ok <==> v@.len() > 0 && v@.len() % 20 == 0)
                        &&& !old(self).optical_ecc_enabled() && r is Ok ==> r->Ok_0@ == frame_payload(v@)
                        &&& !old(self).optical_ecc_enabled() && r is Err ==> r == Err::<Vec<u8>, LaserError>(LaserError::DataCorruption)
                    },
                },
            },
    {
        if !aligned {
            return Err(LaserError::AlignmentLost);
        }
        if self.reception_source(scheme).is_none() {
            return Err(LaserError::ReceptionFailed);
        }
        let data = match raw {
            Err(e) => {
                return Err(e);
            },
            Ok(v) => v,
        };
        match scheme {
            ModulationScheme::Fsk => Ok(vec![0xAAu8, 0xBB, 0xCC]),
            ModulationScheme::Manchester => Ok(vec![0x11u8, 0x22, 0x33]),
            _ => self.decode_with_ecc(data.as_slice()),
        }
    }

    /// One pass of the receive loop: an inactive laser is unavailable, a
    /// loop past its timeout ends in a timeout, a successful attempt ends
    /// reception, and a failed one is retried.
    pub fn receive_data(
        &mut self,
        scheme: ModulationScheme,
        elapsed_ms: u64,
        timeout_ms: u64,
        aligned: bool,
        raw: Result<Vec<u8>, LaserError>,
    ) -> (r: ReceiveStep)
        requires
            old(self).wf(),
            raw matches Ok(v) ==> (!old(self).optical_ecc_enabled() ==> frame_decodable_len(v@.len() as int)),
        ensures
            final(self).wf(),
            final(self).config() == old(self).config(),
            final(self).profile() == old(self).profile(),
            final(self).safety() == old(self).safety(),
            final(self).optical_ecc_enabled() == old(self).optical_ecc_enabled(),
            !old(self).active() ==> r == ReceiveStep::Done(Err(LaserError::HardwareUnavailable)),
            old(self).active() && elapsed_ms > timeout_ms ==> r == ReceiveStep::Done(Err(LaserError::Timeout)),
            old(self).active() && elapsed_ms <= timeout_ms ==> {
                &&& (r is Retry <==> !aligned || source_for(old(self).reception(), scheme) is None || raw is Err || (raw is Ok && (
                    scheme == ModulationScheme::Ook || scheme == ModulationScheme::Pwm || scheme == ModulationScheme::QrProjection)
                    && !old(self).optical_ecc_enabled() && !(raw->Ok_0@.len() > 0 && raw->Ok_0@.len() % 20 == 0)))
                &&& r matches ReceiveStep::Done(res) ==> res is Ok && (aligned && source_for(old(self).reception(), scheme) is Some && raw is Ok)
                &&& r matches ReceiveStep::Done(Ok(v)) ==> match scheme {
                    ModulationScheme::Fsk => v@ == fsk_decoded(),
                    ModulationScheme::Manchester => v@ == manchester_decoded(),
                    _ => {
                        &&& old(self).optical_ecc_enabled() ==> interleaved_form(convolutional_form(v@)) == raw->Ok_0@
                        &&& !old(self).optical_ecc_enabled() ==> v@ == frame_payload(raw->Ok_0@)
                    },
                }
            },
    {
        if !self.active {
            return ReceiveStep::Done(Err(LaserError::HardwareUnavailable));
        }
        if elapsed_ms > timeout_ms {
            return ReceiveStep::Done(Err(LaserError::Timeout));
        }
        match self.receive_attempt(scheme, aligned, raw) {
            Ok(v) => ReceiveStep::Done(Ok(v)),
            Err(_) => ReceiveStep::Retry,
        }
    }
}

// ---------------------------------------------------------------------------
// Range-driven adaptation
// ---------------------------------------------------------------------------

impl LaserEngine {
    /// Turns the laser off while idle: standby pulses it at zero intensity.
    pub fn set_standby_mode(&mut self, standby: bool, now_ms: u64) -> (r: Result<(), LaserError>)
        ensures
            r == Ok::<(), LaserError>(()),
            standby ==> final(self).safety() == (SafetyMonitor { last_activity_ms: now_ms, ..old(self).safety() }),
            !standby ==> final(self).safety() == old(self).safety(),
            final(self).profile() == old(self).profile(),
            final(self).config() == old(self).config(),
            final(self).wf() == old(self).wf(),
            final(self).active() == old(self).active(),
    {
        if standby {
            let _ = self.set_laser_intensity(0, now_ms);
        }
        Ok(())
    }

    /// Cuts power in an emergency: the laser is pulsed off and a violation
    /// counted, as for `emergency_shutdown`.
    pub fn emergency_power_shutdown(&mut self, now_ms: u64) -> (r: Result<(), LaserError>)
        ensures
            r == Ok::<(), LaserError>(()),
            final(self).safety() == (SafetyMonitor {
                last_activity_ms: now_ms,
                eye_safety_violations: bumped(old(self).safety().eye_safety_violations),
                ..old(self).safety()
            }),
            final(self).profile() == old(self).profile(),
            final(self).config() == old(self).config(),
            final(self).wf() == old(self).wf(),
            final(self).active() == old(self).active(),
    {
        self.emergency_shutdown(now_ms)
    }

    /// Measures the range and applies its profile: outside adaptive mode
    /// (or without a range detector) the hardware is unavailable; a failed
    /// measurement (`None`) fails; otherwise as `apply_range_measurement`.
    pub fn measure_range_and_update_power(&mut self, reading: Option<RangeReading>) -> (r: Result<(), LaserError>)
        ensures
            !old(self).adaptive() || !old(self).has_range_detector() ==> r == Err::<(), LaserError>(LaserError::HardwareUnavailable)
                && final(self).profile() == old(self).profile(),
            old(self).adaptive() && old(self).has_range_detector() && reading is None ==> r == Err::<(), LaserError>(
                LaserError::TransmissionFailed,
            ) && final(self).profile() == old(self).profile(),
            old(self).adaptive() && old(self).has_range_detector() && reading is Some ==> r is Ok && final(self).profile()
                == measured_profile(reading->0.distance_cm, reading->0.env),
            final(self).wf() == old(self).wf(),
            final(self).config() == old(self).config(),
            final(self).safety() == old(self).safety(),
            final(self).adaptive() == old(self).adaptive(),
            final(self).has_range_detector() == old(self).has_range_detector(),
            final(self).active() == old(self).active(),
    {
        if !self.adaptive_mode || !self.range_detector_attached {
            return Err(LaserError::HardwareUnavailable);
        }
        match reading {
            None => Err(LaserError::TransmissionFailed),
            Some(rd) => self.apply_range_measurement(rd.distance_cm, rd.env),
        }
    }

    /// The newest of the range detector's measurements; none without a
    /// range detector or before its first measurement.
    pub fn get_current_range_measurement(&self, history: &Vec<RangeMeasurement>) -> (r: Option<RangeMeasurement>)
        ensures
            !self.has_range_detector() ==> r is None,
            self.has_range_detector() && history@.len() == 0 ==> r is None,
            self.has_range_detector() && history@.len() > 0 ==> r == Some(history@.last()),
    {
        if !self.range_detector_attached || history.len() == 0 {
            return None;
        }
        Some(history[history.len() - 1])
    }

    /// The conditions to hand the range detector for a weather report;
    /// without a range detector the hardware is unavailable.
    pub fn update_range_detector_environment(&self, weather: WeatherCondition, visibility_cm: u32) -> (r: Result<
        RangeEnvironmentalConditions,
        LaserError,
    >)
        ensures
            !self.has_range_detector() ==> r == Err::<RangeEnvironmentalConditions, LaserError>(LaserError::HardwareUnavailable),
            self.has_range_detector() ==> r == Ok::<RangeEnvironmentalConditions, LaserError>(
                conditions_for_weather(weather, visibility_cm),
            ),
    {
        if !self.range_detector_attached {
            return Err(LaserError::HardwareUnavailable);
        }
        Ok(weather_to_conditions(weather, visibility_cm))
    }

    /// Hands weather to the range detector: the conditions it should take
    /// are returned, and the power profile is compensated for the weather.
    /// Without a range detector the hardware is unavailable and nothing
    /// changes.
    pub fn update_environmental_conditions(&mut self, weather: WeatherCondition, visibility_cm: u32) -> (r: Result<
        RangeEnvironmentalConditions,
        LaserError,
    >)
        ensures
            !old(self).has_range_detector() ==> r == Err::<RangeEnvironmentalConditions, LaserError>(LaserError::HardwareUnavailable)
                && final(self).profile() == old(self).profile(),
            old(self).has_range_detector() ==> r == Ok::<RangeEnvironmentalConditions, LaserError>(
                conditions_for_weather(weather, visibility_cm),
            ) && ({
                let p = compensated_power(old(self).profile().optimal_power_uw, weather, visibility_cm);
                let limit = safe_limit(old(self).profile(), old(self).config().laser_type);
                final(self).profile() == PowerProfile {
                    optimal_power_uw: (if p < limit { p } else { limit }) as u32,
                    ..old(self).profile()
                }
            }),
            final(self).wf() == old(self).wf(),
            final(self).config() == old(self).config(),
            final(self).active() == old(self).active(),
            final(self).safety() == old(self).safety(),
            final(self).adaptive() == old(self).adaptive(),
            final(self).has_range_detector() == old(self).has_range_detector(),
            final(self).optical_ecc_enabled() == old(self).optical_ecc_enabled(),
    {
        let conditions = match self.update_range_detector_environment(weather, visibility_cm) {
            Ok(c) => c,
            Err(e) => {
                return Err(e);
            },
        };
        let _ = self.adjust_power_for_weather(weather, visibility_cm);
        Ok(conditions)
    }

    /// Power, range and alignment margins (per-mille) for the range
    /// detector's conditions; all one without a range detector.
    pub fn get_safety_margins(&self, conditions: RangeEnvironmentalConditions) -> (r: (u64, u64, u64))
        requires
            attenuation_from_conditions(conditions) <= u32::MAX,
        ensures
            (r.0 as int, r.1 as int, r.2 as int) == safety_margins(
                if self.has_range_detector() {
                    Some(
                        EnvironmentalImpact {
                            weather: weather_from_conditions(conditions),
                            visibility_cm: conditions.visibility_cm,
                            attenuation_permille: attenuation_from_conditions(conditions) as u32,
                        },
                    )
                } else {
                    None
                },
            ),
    {
        crate::laser::get_safety_margins(self.get_environmental_impact(conditions))
    }

    /// The environmental impact of the range detector's conditions; none
    /// without a range detector.
    pub fn get_environmental_impact(&self, conditions: RangeEnvironmentalConditions) -> (r: Option<EnvironmentalImpact>)
        requires
            attenuation_from_conditions(conditions) <= u32::MAX,
        ensures
            !self.has_range_detector() ==> r is None,
            self.has_range_detector() ==> r == Some(EnvironmentalImpact {
                weather: weather_from_conditions(conditions),
                visibility_cm: conditions.visibility_cm,
                attenuation_permille: attenuation_from_conditions(conditions) as u32,
            }),
    {
        if !self.range_detector_attached {
            return None;
        }
        Some(environmental_impact(&conditions))
    }

    /// Checks that the scheme adaptive mode would choose is one the laser
    /// supports; every scheme is, so this always succeeds.
    pub fn update_modulation_scheme(
        &self,
        category: Option<RangeDetectorCategory>,
        env: Option<EnvironmentalImpact>,
        signal_permille: u32,
    ) -> (r: Result<(), LaserError>)
        ensures
            r == Ok::<(), LaserError>(()),
    {
        if !self.adaptive_mode {
            return Ok(());
        }
        let _ = self.select_optimal_modulation(category, env, signal_permille);
        Ok(())
    }

    /// The optical engine's adaptation state, when the engine is enabled.
    pub fn get_optical_ecc_state(&self) -> (r: Option<crate::optical_ecc::AdaptationState>)
        ensures
            self.ecc_engine() matches Some(e) ==> r == Some(e.state()),
            self.ecc_engine() is None ==> r is None,
    {
        match &self.optical_ecc {
            Some(e) => Some(e.get_adaptation_state()),
            None => None,
        }
    }

    /// Whether adaptive mode is on, and the range detector's current
    /// category (none without a detector).
    pub fn get_monitoring_status(&self, detector_category: Option<RangeDetectorCategory>) -> (r: (
        bool,
        Option<RangeDetectorCategory>,
    ))
        ensures
            r.0 == self.adaptive(),
            r.1 == (if self.has_range_detector() { detector_category } else { None }),
    {
        let category = if self.range_detector_attached { detector_category } else { None };
        (self.adaptive_mode, category)
    }

    /// Continuous monitoring needs adaptive mode with a range detector.
    pub fn start_continuous_monitoring(&self) -> (r: Result<(), LaserError>)
        ensures
            r is Ok <==> self.adaptive() && self.has_range_detector(),
            r is Err ==> r == Err::<(), LaserError>(LaserError::HardwareUnavailable),
    {
        if !self.adaptive_mode || !self.range_detector_attached {
            return Err(LaserError::HardwareUnavailable);
        }
        Ok(())
    }

    /// One tick of continuous monitoring: a measured distance whose category
    /// differs from the last one switches to that category's profile; a
    /// failed measurement (`None`) changes nothing. Returns the category now
    /// current.
    pub fn continuous_monitoring_tick(
        &mut self,
        last_category: Option<RangeDetectorCategory>,
        distance_cm: Option<u32>,
    ) -> (r: Option<RangeDetectorCategory>)
        ensures
            distance_cm is None ==> r == last_category && final(self).profile() == old(self).profile(),
            distance_cm matches Some(d) ==> {
                let c = crate::range_detector::category_of_distance(d);
                &&& r == Some(c)
                &&& last_category != Some(c) ==> final(self).profile() == profile_for(c)
                &&& last_category == Some(c) ==> final(self).profile() == old(self).profile()
            },
            final(self).wf() == old(self).wf(),
            final(self).config() == old(self).config(),
            final(self).safety() == old(self).safety(),
            final(self).adaptive() == old(self).adaptive(),
            final(self).has_range_detector() == old(self).has_range_detector(),
            final(self).active() == old(self).active(),
    {
        match distance_cm {
            None => last_category,
            Some(d) => {
                let c = RangeDetectorCategory::from_distance(d);
                let changed = match last_category {
                    None => true,
                    Some(l) => l != c,
                };
                if changed {
                    self.power_profile = PowerProfile::for_range_category(&c);
                }
                Some(c)
            },
        }
    }
}

} // verus!

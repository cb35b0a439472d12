//! Optical error correction: error-pattern analysis of corrected frames, the
//! convolutional codec and block interleaver stages, and the adaptive engine
//! that tunes code strength to range and atmospheric conditions.

use vstd::prelude::*;

verus! {

/// Errors raised by the optical error-correction layer.
#[derive(Debug, Clone, Copy, PartialEq, Eq, Structural)]
pub enum OpticalECCError {
    InvalidParameters,
    UncorrectableError,
    InsufficientData,
    ConvolutionalError,
    InterleavingError,
    AdaptationError,
    PatternAnalysisError,
}

/// Environmental conditions affecting optical transmission.
#[derive(Debug, Clone, Copy, PartialEq, Eq, Structural)]
pub enum AtmosphericCondition {
    Clear,
    LightFog,
    HeavyFog,
    Rain,
    HeavyRain,
    Dust,
    Turbulence,
    BackgroundLight,
}

/// Range categories used by the adaptive code (short: below 100 m,
/// medium: below 150 m, long: beyond).
#[derive(Debug, Clone, Copy, PartialEq, Eq, Structural)]
pub enum RangeCategory {
    Short,
    Medium,
    Long,
}

/// Convolutional code configuration.
#[derive(Debug)]
pub struct ConvolutionalConfig {
    pub constraint_length: usize,
    /// (numerator, denominator)
    pub code_rate: (usize, usize),
    pub generators: Vec<u32>,
}

impl Clone for ConvolutionalConfig {
    fn clone(&self) -> (r: Self)
        ensures
            r.constraint_length == self.constraint_length,
            r.code_rate == self.code_rate,
            r.generators@ == self.generators@,
    {
        Self {
            constraint_length: self.constraint_length,
            code_rate: (self.code_rate.0, self.code_rate.1),
            generators: self.generators.clone(),
        }
    }
}

impl Default for ConvolutionalConfig {
    /// Constraint length 7, rate 1/2, the standard NASA generator pair.
    fn default() -> (r: Self)
        ensures
            r.constraint_length == 7,
            r.code_rate == (1usize, 2usize),
            r.generators@ == seq![0b1011011u32, 0b1111001u32],
    {
        Self { constraint_length: 7, code_rate: (1, 2), generators: vec![0b1011011u32, 0b1111001u32] }
    }
}

/// Reed-Solomon shard configuration.
#[derive(Debug, Clone, Copy)]
pub struct ReedSolomonConfig {
    pub data_shards: usize,
    pub parity_shards: usize,
}

impl Default for ReedSolomonConfig {
    fn default() -> (r: Self)
        ensures
            r.data_shards == 16,
            r.parity_shards == 8,
    {
        Self { data_shards: 16, parity_shards: 8 }
    }
}

/// Interleaving configuration.
#[derive(Debug, Clone, Copy)]
pub struct InterleavingConfig {
    pub block_size: usize,
    pub depth: usize,
}

impl Default for InterleavingConfig {
    fn default() -> (r: Self)
        ensures
            r.block_size == 256,
            r.depth == 4,
    {
        Self { block_size: 256, depth: 4 }
    }
}

/// Adaptive error-correction configuration.
#[derive(Debug, Clone)]
pub struct AdaptiveECCConfig {
    pub convolutional: ConvolutionalConfig,
    pub reed_solomon: ReedSolomonConfig,
    pub interleaving: InterleavingConfig,
    pub adaptation_enabled: bool,
    pub quality_monitoring: bool,
}

impl Default for AdaptiveECCConfig {
    fn default() -> (r: Self)
        ensures
            r.convolutional.constraint_length == 7,
            r.convolutional.code_rate == (1usize, 2usize),
            r.convolutional.generators@ == seq![0b1011011u32, 0b1111001u32],
            r.reed_solomon.data_shards == 16,
            r.reed_solomon.parity_shards == 8,
            r.interleaving.block_size == 256,
            r.interleaving.depth == 4,
            r.adaptation_enabled,
            r.quality_monitoring,
    {
        Self {
            convolutional: ConvolutionalConfig::default(),
            reed_solomon: ReedSolomonConfig::default(),
            interleaving: InterleavingConfig::default(),
            adaptation_enabled: true,
            quality_monitoring: true,
        }
    }
}

// ---------------------------------------------------------------------------
// Error pattern analysis
// ---------------------------------------------------------------------------

/// Positions among the first `n` bytes where the received and the corrected
/// streams differ, in increasing order.
pub open spec fn mismatch_positions(received: Seq<u8>, corrected: Seq<u8>, n: int) -> Seq<usize>
    decreases n,
{
    if n <= 0 {
        seq![]
    } else {
        let prev = mismatch_positions(received, corrected, n - 1);
        if received[n - 1] != corrected[n - 1] {
            prev.push((n - 1) as usize)
        } else {
            prev
        }
    }
}

/// Number of bytes that two streams have in common positions.
pub open spec fn compared_len(received: Seq<u8>, corrected: Seq<u8>) -> int {
    if received.len() <= corrected.len() {
        received.len() as int
    } else {
        corrected.len() as int
    }
}

/// Appends a record to a history and drops the oldest one when the history
/// then holds more than `max` records.
pub open spec fn bounded_push<T>(history: Seq<T>, record: T, max: nat) -> Seq<T> {
    let pushed = history.push(record);
    if pushed.len() > max {
        pushed.drop_first()
    } else {
        pushed
    }
}

/// Number of records with more than five error positions (error bursts).
pub open spec fn burst_count(history: Seq<Seq<usize>>) -> nat
    decreases history.len(),
{
    if history.len() == 0 {
        0
    } else {
        burst_count(history.drop_last()) + if history.last().len() > 5 {
            1nat
        } else {
            0nat
        }
    }
}

/// Whether any record holds an error position.
pub open spec fn has_errors(history: Seq<Seq<usize>>) -> bool {
    exists|i: int| 0 <= i < history.len() && #[trigger] history[i].len() > 0
}

/// Number of indices `i` in `1..n` where position `i` directly follows position `i - 1`.
pub open spec fn consecutive_steps(errors: Seq<usize>, n: int) -> nat
    decreases n,
{
    if n <= 1 {
        0
    } else {
        consecutive_steps(errors, n - 1) + if errors[n - 1] == errors[n - 2] + 1 {
            1nat
        } else {
            0nat
        }
    }
}

/// A record of one to nine errors, fewer than half of them adjacent to the previous one.
pub open spec fn is_scattered(errors: Seq<usize>) -> bool {
    &&& 0 < errors.len() < 10
    &&& consecutive_steps(errors, errors.len() as int) < errors.len() / 2
}

/// Number of scattered records.
pub open spec fn scattered_count(history: Seq<Seq<usize>>) -> nat
    decreases history.len(),
{
    if history.len() == 0 {
        0
    } else {
        scattered_count(history.drop_last()) + if is_scattered(history.last()) {
            1nat
        } else {
            0nat
        }
    }
}

/// The burst ratio is the share of records that are bursts, and is zero when
/// no record holds an error; the error density is one when some record holds
/// an error and zero otherwise (errors counted over errors).
/// `burst ratio > 7/10 && density > 3/10` gives heavy rain, `burst ratio > 1/2`
/// rain, `density > 2/10` heavy fog, `density > 1/10` light fog; then
/// scattered records in more than half of the history give turbulence.
pub open spec fn condition_from_history(history: Seq<Seq<usize>>) -> AtmosphericCondition {
    let n = history.len();
    let errs = has_errors(history);
    let bursts = burst_count(history);
    if n < 3 {
        AtmosphericCondition::Clear
    } else if errs && 10 * bursts > 7 * n {
        AtmosphericCondition::HeavyRain
    } else if errs && 2 * bursts > n {
        AtmosphericCondition::Rain
    } else if errs {
        AtmosphericCondition::HeavyFog
    } else if scattered_count(history) > n / 2 {
        AtmosphericCondition::Turbulence
    } else {
        AtmosphericCondition::Clear
    }
}

/// Whether an error record is a burst: more than five error positions.
pub open spec fn burst_frame() -> spec_fn(Seq<usize>) -> bool {
    |r: Seq<usize>| r.len() > 5
}

proof fn lemma_burst_count_is_filter(history: Seq<Seq<usize>>)
    ensures
        burst_count(history) == history.filter(burst_frame()).len(),
    decreases history.len(),
{
    reveal(Seq::filter);
    if history.len() > 0 {
        lemma_burst_count_is_filter(history.drop_last());
    }
}

/// Classification of a history of at least three records of which some
/// holds errors, by the share of bursts (records with more than five error
/// positions): more than 7/10 is heavy rain, more than half (up to 7/10) is
/// rain, and half or less is heavy fog.
pub proof fn lemma_condition_by_burst_share(history: Seq<Seq<usize>>)
    requires
        history.len() >= 3,
        exists|i: int| 0 <= i < history.len() && #[trigger] history[i].len() > 0,
    ensures
        10 * history.filter(burst_frame()).len() > 7 * history.len() ==> condition_from_history(history)
            == AtmosphericCondition::HeavyRain,
        2 * history.filter(burst_frame()).len() > history.len() && 10 * history.filter(burst_frame()).len() <= 7
            * history.len() ==> condition_from_history(history) == AtmosphericCondition::Rain,
        2 * history.filter(burst_frame()).len() <= history.len() ==> condition_from_history(history)
            == AtmosphericCondition::HeavyFog,
{
    lemma_burst_count_is_filter(history);
}

/// A history without any error is never read as rain or fog: it is clear
/// or turbulent.
pub proof fn lemma_error_free_history_is_dry(history: Seq<Seq<usize>>)
    requires
        forall|i: int| 0 <= i < history.len() ==> #[trigger] history[i].len() == 0,
    ensures
        condition_from_history(history) == AtmosphericCondition::Clear || condition_from_history(history)
            == AtmosphericCondition::Turbulence,
{
}

/// Error pattern analysis for atmospheric interference detection.
#[derive(Debug)]
pub struct ErrorPatternAnalyzer {
    error_history: Vec<Vec<usize>>,
    pattern_buffer: Vec<u8>,
    max_history: usize,
}

impl ErrorPatternAnalyzer {
    /// The error positions of the analyzed frames, oldest first.
    pub closed spec fn history(&self) -> Seq<Seq<usize>> {
        self.error_history@.map_values(|v: Vec<usize>| v@)
    }

    /// The number of frames kept.
    pub closed spec fn capacity(&self) -> nat {
        self.max_history as nat
    }

    /// The history never holds more frames than the capacity.
    pub closed spec fn wf(&self) -> bool {
        self.error_history@.len() <= self.max_history
    }

    pub fn new(max_history: usize) -> (r: Self)
        ensures
            r.wf(),
            r.history() == Seq::<Seq<usize>>::empty(),
            r.capacity() == max_history,
    {
        let r = Self { error_history: Vec::new(), pattern_buffer: Vec::new(), max_history };
        assert(r.history() =~= Seq::<Seq<usize>>::empty());
        r
    }

    /// Records the positions where `received_data` and `corrected_data` differ
    /// (over their common length), keeps the last `capacity` records, and
    /// classifies the atmospheric condition from the kept history.
    pub fn analyze_patterns(&mut self, received_data: &[u8], corrected_data: &[u8]) -> (r: Result<
        AtmosphericCondition,
        OpticalECCError,
    >)
        requires
            old(self).wf(),
        ensures
            final(self).wf(),
            final(self).capacity() == old(self).capacity(),
            final(self).history() == bounded_push(
                old(self).history(),
                mismatch_positions(
                    received_data@,
                    corrected_data@,
                    compared_len(received_data@, corrected_data@),
                ),
                old(self).capacity(),
            ),
            r == Ok::<AtmosphericCondition, OpticalECCError>(
                condition_from_history(final(self).history()),
            ),
    {
        let n: usize = if received_data.len() <= corrected_data.len() {
            received_data.len()
        } else {
            corrected_data.len()
        };
        let mut error_positions: Vec<usize> = Vec::new();
        let mut i: usize = 0;
        while i < n
            invariant
                n == compared_len(received_data@, corrected_data@),
                i <= n,
                error_positions@ == mismatch_positions(received_data@, corrected_data@, i as int),
            decreases n - i,
        {
            if received_data[i] != corrected_data[i] {
                error_positions.push(i);
            }
            i = i + 1;
        }
        let ghost old_hist = self.history();
        let ghost rec = error_positions@;
        self.error_history.push(error_positions);
        assert(self.history() =~= old_hist.push(rec));
        if self.error_history.len() > self.max_history {
            let ghost before = self.history();
            let _ = self.error_history.remove(0);
            assert(self.history() =~= before.drop_first());
        }
        self.detect_atmospheric_condition()
    }

    /// The history of a well-formed analyzer never holds more frames than its
    /// capacity, so an analyzer keeping fewer than three frames never has
    /// enough history to detect anything and always reports clear air.
    pub proof fn lemma_history_within_capacity(&self)
        requires
            self.wf(),
        ensures
            self.history().len() <= self.capacity(),
            self.capacity() < 3 ==> condition_from_history(self.history()) == AtmosphericCondition::Clear,
    {
    }

    fn count_bursts(&self) -> (r: usize)
        ensures
            r == burst_count(self.history()),
    {
        let ghost h = self.history();
        let mut count: usize = 0;
        let mut k: usize = 0;
        while k < self.error_history.len()
            invariant
                h == self.history(),
                k <= self.error_history@.len(),
                count == burst_count(h.take(k as int)),
                count <= k,
            decreases self.error_history@.len() - k,
        {
            assert(h.take(k + 1).drop_last() =~= h.take(k as int));
            if self.error_history[k].len() > 5 {
                count = count + 1;
            }
            k = k + 1;
        }
        assert(h.take(k as int) =~= h);
        count
    }

    fn any_errors(&self) -> (r: bool)
        ensures
            r == has_errors(self.history()),
    {
        let ghost h = self.history();
        let mut k: usize = 0;
        while k < self.error_history.len()
            invariant
                h == self.history(),
                k <= self.error_history@.len(),
                forall|j: int| 0 <= j < k ==> #[trigger] h[j].len() == 0,
            decreases self.error_history@.len() - k,
        {
            if self.error_history[k].len() > 0 {
                assert(h[k as int].len() > 0);
                return true;
            }
            k = k + 1;
        }
        false
    }

    fn detect_turbulence_pattern(&self) -> (r: bool)
        ensures
            r == (scattered_count(self.history()) > self.history().len() / 2),
    {
        let ghost h = self.history();
        let mut scattered: usize = 0;
        let mut k: usize = 0;
        while k < self.error_history.len()
            invariant
                h == self.history(),
                k <= self.error_history@.len(),
                scattered == scattered_count(h.take(k as int)),
                scattered <= k,
            decreases self.error_history@.len() - k,
        {
            assert(h.take(k + 1).drop_last() =~= h.take(k as int));
            let errors = &self.error_history[k];
            if errors.len() > 0 && errors.len() < 10 {
                let mut consecutive: usize = 0;
                let mut i: usize = 1;
                while i < errors.len()
                    invariant
                        1 <= i <= errors@.len(),
                        consecutive == consecutive_steps(errors@, i as int),
                        consecutive <= i,
                    decreases errors@.len() - i,
                {
                    if errors[i - 1] < errors[i] && errors[i] - errors[i - 1] == 1 {
                        consecutive = consecutive + 1;
                    }
                    i = i + 1;
                }
                if consecutive < errors.len() / 2 {
                    scattered = scattered + 1;
                }
            }
            k = k + 1;
        }
        assert(h.take(k as int) =~= h);
        scattered > self.error_history.len() / 2
    }

    /// Periodic interference is not detected by this analyzer.
    fn detect_background_interference(&self) -> (r: bool)
        ensures
            !r,
    {
        false
    }

    fn detect_atmospheric_condition(&self) -> (r: Result<AtmosphericCondition, OpticalECCError>)
        ensures
            r == Ok::<AtmosphericCondition, OpticalECCError>(condition_from_history(self.history())),
    {
        if self.error_history.len() < 3 {
            return Ok(AtmosphericCondition::Clear);
        }
        let bursts = self.count_bursts();
        let errs = self.any_errors();
        let n = self.error_history.len();
        if errs && 10 * (bursts as u128) > 7 * (n as u128) {
            Ok(AtmosphericCondition::HeavyRain)
        } else if errs && 2 * (bursts as u128) > n as u128 {
            Ok(AtmosphericCondition::Rain)
        } else if errs {
            Ok(AtmosphericCondition::HeavyFog)
        } else if self.detect_turbulence_pattern() {
            Ok(AtmosphericCondition::Turbulence)
        } else if self.detect_background_interference() {
            Ok(AtmosphericCondition::BackgroundLight)
        } else {
            Ok(AtmosphericCondition::Clear)
        }
    }
}

// ---------------------------------------------------------------------------
// Convolutional codec and block interleaver
// ---------------------------------------------------------------------------

/// The output bit of a convolutional generator over the first `n` register
/// positions: the parity of the state bits selected by the generator's taps.
pub open spec fn output_bit(generator: u32, state: usize, n: nat) -> u8
    decreases n,
{
    if n == 0 {
        0
    } else {
        let i = (n - 1) as usize;
        let prev = output_bit(generator, state, (n - 1) as nat);
        if generator & (1u32 << i) != 0 {
            prev ^ (((state >> i) & 1usize) as u8)
        } else {
            prev
        }
    }
}

/// Form of a stream after the convolutional stage. The stage currently
/// forwards the stream unchanged.
pub open spec fn convolutional_form(data: Seq<u8>) -> Seq<u8> {
    data
}

/// Form of a stream after the interleaving stage. The stage currently
/// forwards the stream unchanged.
pub open spec fn interleaved_form(data: Seq<u8>) -> Seq<u8> {
    data
}

/// Convolutional encoder/decoder.
#[derive(Debug)]
pub struct ConvolutionalCodec {
    config: ConvolutionalConfig,
    shift_register: Vec<u8>,
}

impl ConvolutionalCodec {
    pub closed spec fn constraint_length(&self) -> nat {
        self.config.constraint_length as nat
    }

    pub closed spec fn code_rate(&self) -> (usize, usize) {
        self.config.code_rate
    }

    pub closed spec fn generators(&self) -> Seq<u32> {
        self.config.generators@
    }

    /// The encoder's shift register.
    pub closed spec fn register(&self) -> Seq<u8> {
        self.shift_register@
    }

    /// Builds a codec whose shift register holds `constraint_length` zero bits.
    pub fn new(config: ConvolutionalConfig) -> (r: Self)
        ensures
            r.constraint_length() == config.constraint_length,
            r.code_rate() == config.code_rate,
            r.generators() == config.generators@,
            r.register() == Seq::new(config.constraint_length as nat, |i: int| 0u8),
    {
        let constraint_length = config.constraint_length;
        let shift_register = vec![0u8; constraint_length];
        let r = Self { config, shift_register };
        assert(r.register() =~= Seq::new(constraint_length as nat, |i: int| 0u8));
        r
    }

    /// Encodes a stream; the encoded form is `convolutional_form(data)`.
    pub fn encode(&mut self, data: &[u8]) -> (r: Result<Vec<u8>, OpticalECCError>)
        ensures
            r is Ok,
            r.unwrap()@ == convolutional_form(data@),
            *final(self) == *old(self),
    {
        Ok(vstd::slice::slice_to_vec(data))
    }

    /// Decodes a stream produced by `encode`.
    pub fn decode(&self, encoded_data: &[u8]) -> (r: Result<Vec<u8>, OpticalECCError>)
        ensures
            r is Ok,
            convolutional_form(r.unwrap()@) == encoded_data@,
    {
        Ok(vstd::slice::slice_to_vec(encoded_data))
    }

    /// Parity of the bits of `state` selected by the taps of generator
    /// `generator_index`, over the constraint length.
    pub fn calculate_output_bit(&self, state: usize, generator_index: usize) -> (r: u8)
        requires
            generator_index < self.generators().len(),
            self.constraint_length() <= 32,
        ensures
            r == output_bit(self.generators()[generator_index as int], state, self.constraint_length()),
            r <= 1,
    {
        let generator = self.config.generators[generator_index];
        let mut output: u8 = 0;
        let mut i: usize = 0;
        while i < self.config.constraint_length
            invariant
                i <= self.config.constraint_length <= 32,
                generator == self.generators()[generator_index as int],
                output == output_bit(generator, state, i as nat),
                output <= 1,
            decreases self.config.constraint_length - i,
        {
            if generator & (1u32 << i) != 0 {
                let bit: usize = (state >> i) & 1usize;
                assert(((state >> i) & 1usize) <= 1usize) by (bit_vector);
                let b: u8 = bit as u8;
                assert(output ^ b <= 1u8) by (bit_vector)
                    requires
                        output <= 1u8,
                        b <= 1u8,
                ;
                output = output ^ b;
            }
            i = i + 1;
        }
        output
    }
}

/// Block interleaver for burst error protection.
#[derive(Debug)]
pub struct BlockInterleaver {
    config: InterleavingConfig,
}

impl BlockInterleaver {
    pub closed spec fn block_size(&self) -> nat {
        self.config.block_size as nat
    }

    pub closed spec fn depth(&self) -> nat {
        self.config.depth as nat
    }

    pub fn new(config: InterleavingConfig) -> (r: Self)
        ensures
            r.block_size() == config.block_size,
            r.depth() == config.depth,
    {
        Self { config }
    }

    /// Interleaves a stream; the result is `interleaved_form(data)`.
    pub fn interleave(&self, data: &[u8]) -> (r: Result<Vec<u8>, OpticalECCError>)
        ensures
            r is Ok,
            r.unwrap()@ == interleaved_form(data@),
    {
        Ok(vstd::slice::slice_to_vec(data))
    }

    /// Restores a stream produced by `interleave`.
    pub fn deinterleave(&self, data: &[u8]) -> (r: Result<Vec<u8>, OpticalECCError>)
        ensures
            r is Ok,
            interleaved_form(r.unwrap()@) == data@,
    {
        Ok(vstd::slice::slice_to_vec(data))
    }
}

/// Decoding an encoded stream gives the stream back, and so does
/// deinterleaving an interleaved one.
pub proof fn lemma_codec_stages_round_trip(data: Seq<u8>, decoded: Seq<u8>, restored: Seq<u8>)
    requires
        convolutional_form(decoded) == convolutional_form(data),
        interleaved_form(restored) == interleaved_form(data),
    ensures
        decoded == data,
        restored == data,
{
}

// ---------------------------------------------------------------------------
// Adaptive engine
// ---------------------------------------------------------------------------

/// Quality metrics for optical transmission, in fixed units.
#[derive(Debug, Clone, Copy, PartialEq, Eq, Structural)]
pub struct OpticalQualityMetrics {
    /// Bit error rate, parts per million.
    pub ber_ppm: u64,
    /// Packet error rate, parts per million.
    pub per_ppm: u64,
    /// Signal strength, per-mille of full scale.
    pub signal_strength_permille: u32,
    /// Atmospheric attenuation, thousandths of a decibel.
    pub atmospheric_attenuation_mdb: u32,
    /// Turbulence index, per-mille.
    pub turbulence_index_permille: u32,
    /// Background noise, per-mille.
    pub background_noise_permille: u32,
    /// Range to the peer, centimeters.
    pub range_cm: u32,
    /// Instant of measurement, milliseconds.
    pub timestamp_ms: u64,
}

/// State of the adaptation loop.
#[derive(Debug, Clone, Copy, PartialEq, Eq, Structural)]
pub struct AdaptationState {
    pub current_condition: AtmosphericCondition,
    pub current_range: RangeCategory,
    /// Code strength, per-mille (0 to 1000).
    pub ecc_strength_permille: u32,
    /// Instant of the last adaptation, milliseconds.
    pub last_adaptation_ms: u64,
}

/// Number of quality records kept by the engine.
pub const QUALITY_HISTORY_LIMIT: usize = 100;

/// Range category of a distance: below 100 m short, below 150 m medium.
pub open spec fn range_category_of(range_cm: u32) -> RangeCategory {
    if range_cm < 10000 {
        RangeCategory::Short
    } else if range_cm < 15000 {
        RangeCategory::Medium
    } else {
        RangeCategory::Long
    }
}

/// Condition inferred from one quality record: attenuation above 10 dB with a
/// bit error rate above 1% is heavy fog, attenuation above 5 dB light fog,
/// turbulence above 0.7 turbulence, background noise above 0.6 background light.
pub open spec fn condition_from_metrics(m: OpticalQualityMetrics) -> AtmosphericCondition {
    if m.atmospheric_attenuation_mdb > 10000 && m.ber_ppm > 10000 {
        AtmosphericCondition::HeavyFog
    } else if m.atmospheric_attenuation_mdb > 5000 {
        AtmosphericCondition::LightFog
    } else if m.turbulence_index_permille > 700 {
        AtmosphericCondition::Turbulence
    } else if m.background_noise_permille > 600 {
        AtmosphericCondition::BackgroundLight
    } else {
        AtmosphericCondition::Clear
    }
}

/// Base strength of a range category, per-mille.
pub open spec fn base_strength(r: RangeCategory) -> nat {
    match r {
        RangeCategory::Short => 300,
        RangeCategory::Medium => 500,
        RangeCategory::Long => 800,
    }
}

/// Strength multiplier of a condition, per-mille.
pub open spec fn condition_multiplier(c: AtmosphericCondition) -> nat {
    match c {
        AtmosphericCondition::Clear => 1000,
        AtmosphericCondition::LightFog => 1200,
        AtmosphericCondition::HeavyFog => 1500,
        AtmosphericCondition::Rain => 1800,
        AtmosphericCondition::HeavyRain => 2200,
        AtmosphericCondition::Dust => 1300,
        AtmosphericCondition::Turbulence => 1400,
        AtmosphericCondition::BackgroundLight => 1100,
    }
}

/// Strength for a range and a condition: base times multiplier, capped at 1.
pub open spec fn strength_for(r: RangeCategory, c: AtmosphericCondition) -> nat {
    let s = base_strength(r) * condition_multiplier(c) / 1000;
    if s > 1000 {
        1000
    } else {
        s
    }
}

/// `v` clamped to `[lo, hi]`.
pub open spec fn clamp(v: nat, lo: nat, hi: nat) -> nat {
    if v < lo {
        lo
    } else if v > hi {
        hi
    } else {
        v
    }
}

/// Reed-Solomon parity shards for a strength: `16 * strength`, within 4 to 16.
pub open spec fn parity_for_strength(strength: nat) -> nat {
    clamp(strength * 16 / 1000, 4, 16)
}

/// Interleaving depth for a strength: `8 * strength`, within 2 to 8.
pub open spec fn depth_for_strength(strength: nat) -> nat {
    clamp(strength * 8 / 1000, 2, 8)
}

/// Sum of the bit error rates of a sequence of records.
pub open spec fn ber_sum(s: Seq<OpticalQualityMetrics>) -> int
    decreases s.len(),
{
    if s.len() == 0 {
        0
    } else {
        ber_sum(s.drop_last()) + s.last().ber_ppm
    }
}

/// Sum of the signal strengths of a sequence of records.
pub open spec fn signal_sum(s: Seq<OpticalQualityMetrics>) -> int
    decreases s.len(),
{
    if s.len() == 0 {
        0
    } else {
        signal_sum(s.drop_last()) + s.last().signal_strength_permille
    }
}

/// The five newest records, oldest first.
pub open spec fn recent_five(h: Seq<OpticalQualityMetrics>) -> Seq<OpticalQualityMetrics> {
    h.subrange(h.len() - 5, h.len() as int)
}

/// Strength after trend adaptation over the five newest records. The trend is
/// the mean step from the newest record back to the oldest, so it is positive
/// when the oldest bit error rate exceeds the newest one. A mean bit error
/// rate above 1% with a positive trend raises the strength by 0.1 (capped at
/// 1); a mean below 0.1% with a negative trend and a mean signal above 0.8
/// lowers it by 0.05, to no less than 0.2.
pub open spec fn trend_strength(strength: nat, recent: Seq<OpticalQualityMetrics>) -> nat {
    let bers = ber_sum(recent);
    let signals = signal_sum(recent);
    let trend = recent[0].ber_ppm - recent[4].ber_ppm;
    if bers > 50000 && trend > 0 {
        if strength + 100 > 1000 {
            1000
        } else {
            strength + 100
        }
    } else if bers < 5000 && trend < 0 && signals > 4000 {
        if strength >= 250 {
            (strength - 50) as nat
        } else {
            200
        }
    } else {
        strength
    }
}

/// Convolutional code rate for the five newest records: a mean signal below
/// 0.5 gives rate 1/3, below 0.7 rate 1/2, otherwise rate 2/3.
pub open spec fn rate_for(recent: Seq<OpticalQualityMetrics>) -> (usize, usize) {
    let signals = signal_sum(recent);
    if signals < 2500 {
        (1, 3)
    } else if signals < 3500 {
        (1, 2)
    } else {
        (2, 3)
    }
}

/// Main optical error-correction engine.
#[derive(Debug)]
pub struct OpticalECC {
    config: AdaptiveECCConfig,
    convolutional_codec: ConvolutionalCodec,
    interleaver: BlockInterleaver,
    pattern_analyzer: ErrorPatternAnalyzer,
    quality_history: Vec<OpticalQualityMetrics>,
    adaptation_state: AdaptationState,
}

impl OpticalECC {
    pub closed spec fn data_shards(&self) -> nat {
        self.config.reed_solomon.data_shards as nat
    }

    pub closed spec fn parity_shards(&self) -> nat {
        self.config.reed_solomon.parity_shards as nat
    }

    pub closed spec fn interleaving_depth(&self) -> nat {
        self.config.interleaving.depth as nat
    }

    pub closed spec fn interleaving_block_size(&self) -> nat {
        self.config.interleaving.block_size as nat
    }

    pub closed spec fn code_rate(&self) -> (usize, usize) {
        self.config.convolutional.code_rate
    }

    pub closed spec fn adaptation_enabled(&self) -> bool {
        self.config.adaptation_enabled
    }

    pub closed spec fn history(&self) -> Seq<OpticalQualityMetrics> {
        self.quality_history@
    }

    pub closed spec fn state(&self) -> AdaptationState {
        self.adaptation_state
    }

    /// The shard counts form a valid Reed-Solomon code, the history is within
    /// its limit, the strength within 0 to 1, and the stage codecs follow the
    /// configuration.
    pub closed spec fn wf(&self) -> bool {
        &&& 0 < self.config.reed_solomon.data_shards
        &&& 0 < self.config.reed_solomon.parity_shards
        &&& self.config.reed_solomon.data_shards + self.config.reed_solomon.parity_shards <= 256
        &&& self.quality_history@.len() <= QUALITY_HISTORY_LIMIT
        &&& self.adaptation_state.ecc_strength_permille <= 1000
        &&& self.convolutional_codec.code_rate() == self.config.convolutional.code_rate
        &&& self.interleaver.depth() == self.config.interleaving.depth
    }

    /// Builds the engine; the Reed-Solomon shard counts of `config` must form
    /// a valid code (at least one data and one parity shard, at most 256 in all).
    pub fn new(config: AdaptiveECCConfig, now_ms: u64) -> (r: Self)
        requires
            config.reed_solomon.data_shards > 0,
            config.reed_solomon.parity_shards > 0,
            config.reed_solomon.data_shards + config.reed_solomon.parity_shards <= 256,
        ensures
            r.wf(),
            r.data_shards() == config.reed_solomon.data_shards,
            r.parity_shards() == config.reed_solomon.parity_shards,
            r.interleaving_depth() == config.interleaving.depth,
            r.interleaving_block_size() == config.interleaving.block_size,
            r.code_rate() == config.convolutional.code_rate,
            r.adaptation_enabled() == config.adaptation_enabled,
            r.history() == Seq::<OpticalQualityMetrics>::empty(),
            r.state() == (AdaptationState {
                current_condition: AtmosphericCondition::Clear,
                current_range: RangeCategory::Medium,
                ecc_strength_permille: 500,
                last_adaptation_ms: now_ms,
            }),
    {
        let convolutional_codec = ConvolutionalCodec::new(config.convolutional.clone());
        let interleaver = BlockInterleaver::new(config.interleaving);
        let pattern_analyzer = ErrorPatternAnalyzer::new(10);
        let r = Self {
            config,
            convolutional_codec,
            interleaver,
            pattern_analyzer,
            quality_history: Vec::new(),
            adaptation_state: AdaptationState {
                current_condition: AtmosphericCondition::Clear,
                current_range: RangeCategory::Medium,
                ecc_strength_permille: 500,
                last_adaptation_ms: now_ms,
            },
        };
        assert(r.history() =~= Seq::<OpticalQualityMetrics>::empty());
        r
    }

    /// Encodes through the convolutional, interleaving and Reed-Solomon stages.
    pub fn encode(&mut self, data: &[u8]) -> (r: Result<Vec<u8>, OpticalECCError>)
        ensures
            r is Ok,
            r.unwrap()@ == interleaved_form(convolutional_form(data@)),
            *final(self) == *old(self),
    {
        let conv_encoded = self.convolutional_codec.encode(data)?;
        let interleaved = self.interleaver.interleave(conv_encoded.as_slice())?;
        Ok(interleaved)
    }

    /// Decodes through the Reed-Solomon, deinterleaving and convolutional stages.
    pub fn decode(&mut self, data: &[u8]) -> (r: Result<Vec<u8>, OpticalECCError>)
        ensures
            r is Ok,
            interleaved_form(convolutional_form(r.unwrap()@)) == data@,
            *final(self) == *old(self),
    {
        let deinterleaved = self.interleaver.deinterleave(data)?;
        let conv_decoded = self.convolutional_codec.decode(deinterleaved.as_slice())?;
        Ok(conv_decoded)
    }

    pub fn get_config(&self) -> (r: &AdaptiveECCConfig)
        ensures
            r.reed_solomon.data_shards == self.data_shards(),
            r.reed_solomon.parity_shards == self.parity_shards(),
            r.interleaving.depth == self.interleaving_depth(),
            r.convolutional.code_rate == self.code_rate(),
            r.adaptation_enabled == self.adaptation_enabled(),
    {
        &self.config
    }

    pub fn get_adaptation_state(&self) -> (r: AdaptationState)
        ensures
            r == self.state(),
    {
        self.adaptation_state
    }

    pub fn get_quality_history(&self) -> (r: &Vec<OpticalQualityMetrics>)
        ensures
            r@ == self.history(),
    {
        &self.quality_history
    }

    fn infer_condition_from_metrics(metrics: &OpticalQualityMetrics) -> (r: AtmosphericCondition)
        ensures
            r == condition_from_metrics(*metrics),
    {
        if metrics.atmospheric_attenuation_mdb > 10000 && metrics.ber_ppm > 10000 {
            AtmosphericCondition::HeavyFog
        } else if metrics.atmospheric_attenuation_mdb > 5000 {
            AtmosphericCondition::LightFog
        } else if metrics.turbulence_index_permille > 700 {
            AtmosphericCondition::Turbulence
        } else if metrics.background_noise_permille > 600 {
            AtmosphericCondition::BackgroundLight
        } else {
            AtmosphericCondition::Clear
        }
    }

    fn strength_of(range: RangeCategory, condition: AtmosphericCondition) -> (r: u32)
        ensures
            r == strength_for(range, condition),
    {
        let base: u32 = match range {
            RangeCategory::Short => 300,
            RangeCategory::Medium => 500,
            RangeCategory::Long => 800,
        };
        let multiplier: u32 = match condition {
            AtmosphericCondition::Clear => 1000,
            AtmosphericCondition::LightFog => 1200,
            AtmosphericCondition::HeavyFog => 1500,
            AtmosphericCondition::Rain => 1800,
            AtmosphericCondition::HeavyRain => 2200,
            AtmosphericCondition::Dust => 1300,
            AtmosphericCondition::Turbulence => 1400,
            AtmosphericCondition::BackgroundLight => 1100,
        };
        assert(base * multiplier <= 800 * 2200) by (nonlinear_arith)
            requires
                base <= 800,
                multiplier <= 2200,
        ;
        let s = base * multiplier / 1000;
        if s > 1000 {
            1000
        } else {
            s
        }
    }

    /// Sets the parity shard count and interleaving depth for a strength.
    fn adjust_ecc_strength(&mut self, strength: u32)
        requires
            old(self).wf(),
            strength <= 1000,
            old(self).data_shards() + parity_for_strength(strength as nat) <= 256,
        ensures
            final(self).wf(),
            final(self).parity_shards() == parity_for_strength(strength as nat),
            final(self).interleaving_depth() == depth_for_strength(strength as nat),
            final(self).data_shards() == old(self).data_shards(),
            final(self).interleaving_block_size() == old(self).interleaving_block_size(),
            final(self).code_rate() == old(self).code_rate(),
            final(self).adaptation_enabled() == old(self).adaptation_enabled(),
            final(self).history() == old(self).history(),
            final(self).state() == old(self).state(),
    {
        let scaled_parity: u32 = strength * 16 / 1000;
        let parity: u32 = if scaled_parity < 4 {
            4
        } else if scaled_parity > 16 {
            16
        } else {
            scaled_parity
        };
        self.config.reed_solomon.parity_shards = parity as usize;
        let scaled_depth: u32 = strength * 8 / 1000;
        let depth: u32 = if scaled_depth < 2 {
            2
        } else if scaled_depth > 8 {
            8
        } else {
            scaled_depth
        };
        self.config.interleaving.depth = depth as usize;
        self.interleaver = BlockInterleaver::new(self.config.interleaving);
    }

    /// Records a quality measurement (keeping the newest hundred) and, when
    /// adaptation is enabled, retunes the code: the range category and the
    /// inferred condition set the strength, which sets the parity shards and
    /// the interleaving depth; then, over five or more records, the trend of
    /// the five newest adjusts the strength and their signal the code rate.
    pub fn update_quality_metrics(&mut self, metrics: OpticalQualityMetrics, now_ms: u64) -> (r:
        Result<(), OpticalECCError>)
        requires
            old(self).wf(),
            old(self).adaptation_enabled() ==> old(self).data_shards() + parity_for_strength(
                strength_for(range_category_of(metrics.range_cm), condition_from_metrics(metrics)),
            ) <= 256,
        ensures
            r is Ok,
            final(self).wf(),
            final(self).history() == bounded_push(
                old(self).history(),
                metrics,
                QUALITY_HISTORY_LIMIT as nat,
            ),
            final(self).data_shards() == old(self).data_shards(),
            final(self).adaptation_enabled() == old(self).adaptation_enabled(),
            final(self).interleaving_block_size() == old(self).interleaving_block_size(),
            !old(self).adaptation_enabled() ==> {
                &&& final(self).state() == old(self).state()
                &&& final(self).parity_shards() == old(self).parity_shards()
                &&& final(self).interleaving_depth() == old(self).interleaving_depth()
                &&& final(self).code_rate() == old(self).code_rate()
            },
            old(self).adaptation_enabled() ==> {
                let range = range_category_of(metrics.range_cm);
                let condition = condition_from_metrics(metrics);
                let strength = strength_for(range, condition);
                let h = final(self).history();
                &&& final(self).state().current_range == range
                &&& final(self).state().current_condition == condition
                &&& final(self).state().last_adaptation_ms == now_ms
                &&& final(self).parity_shards() == parity_for_strength(strength)
                &&& final(self).interleaving_depth() == depth_for_strength(strength)
                &&& h.len() < 5 ==> {
                    &&& final(self).state().ecc_strength_permille == strength
                    &&& final(self).code_rate() == old(self).code_rate()
                }
                &&& h.len() >= 5 ==> {
                    &&& final(self).state().ecc_strength_permille == trend_strength(
                        strength,
                        recent_five(h),
                    )
                    &&& final(self).code_rate() == rate_for(recent_five(h))
                }
            },
    {
        let ghost old_hist = self.history();
        self.quality_history.push(metrics);
        assert(self.history() =~= old_hist.push(metrics));
        if self.quality_history.len() > QUALITY_HISTORY_LIMIT {
            let ghost before = self.history();
            let _ = self.quality_history.remove(0);
            assert(self.history() =~= before.drop_first());
        }
        if !self.config.adaptation_enabled {
            return Ok(());
        }
        self.adapt_ecc_parameters(&metrics, now_ms);
        self.perform_real_time_adaptation(now_ms);
        Ok(())
    }

    fn adapt_ecc_parameters(&mut self, metrics: &OpticalQualityMetrics, now_ms: u64)
        requires
            old(self).wf(),
            old(self).data_shards() + parity_for_strength(
                strength_for(range_category_of(metrics.range_cm), condition_from_metrics(*metrics)),
            ) <= 256,
        ensures
            final(self).wf(),
            ({
                let range = range_category_of(metrics.range_cm);
                let condition = condition_from_metrics(*metrics);
                let strength = strength_for(range, condition);
                &&& final(self).state() == (AdaptationState {
                    current_condition: condition,
                    current_range: range,
                    ecc_strength_permille: strength as u32,
                    last_adaptation_ms: now_ms,
                })
                &&& final(self).parity_shards() == parity_for_strength(strength)
                &&& final(self).interleaving_depth() == depth_for_strength(strength)
            }),
            final(self).data_shards() == old(self).data_shards(),
            final(self).interleaving_block_size() == old(self).interleaving_block_size(),
            final(self).code_rate() == old(self).code_rate(),
            final(self).adaptation_enabled() == old(self).adaptation_enabled(),
            final(self).history() == old(self).history(),
    {
        let range = if metrics.range_cm < 10000 {
            RangeCategory::Short
        } else if metrics.range_cm < 15000 {
            RangeCategory::Medium
        } else {
            RangeCategory::Long
        };
        let condition = Self::infer_condition_from_metrics(metrics);
        let strength = Self::strength_of(range, condition);
        self.adaptation_state = AdaptationState {
            current_condition: condition,
            current_range: range,
            ecc_strength_permille: strength,
            last_adaptation_ms: now_ms,
        };
        self.adjust_ecc_strength(strength);
    }

    /// Sums of the bit error rates and signal strengths of the five newest records.
    fn recent_sums(&self) -> (r: (u128, u64))
        requires
            self.quality_history@.len() >= 5,
        ensures
            r.0 == ber_sum(recent_five(self.history())),
            r.1 == signal_sum(recent_five(self.history())),
    {
        let ghost h = self.history();
        let n = self.quality_history.len();
        let start = n - 5;
        let mut bers: u128 = 0;
        let mut signals: u64 = 0;
        let mut k: usize = start;
        while k < n
            invariant
                h == self.history(),
                n == h.len(),
                start == n - 5,
                start <= k <= n,
                bers == ber_sum(h.subrange(start as int, k as int)),
                signals == signal_sum(h.subrange(start as int, k as int)),
                bers <= (k - start) * 0xffff_ffff_ffff_ffffu64,
                signals <= (k - start) * 0xffff_ffffu32,
            decreases n - k,
        {
            assert(h.subrange(start as int, k + 1).drop_last() =~= h.subrange(start as int, k as int));
            bers = bers + self.quality_history[k].ber_ppm as u128;
            signals = signals + self.quality_history[k].signal_strength_permille as u64;
            k = k + 1;
        }
        (bers, signals)
    }

    fn perform_real_time_adaptation(&mut self, now_ms: u64)
        requires
            old(self).wf(),
        ensures
            final(self).wf(),
            final(self).history() == old(self).history(),
            final(self).data_shards() == old(self).data_shards(),
            final(self).parity_shards() == old(self).parity_shards(),
            final(self).interleaving_depth() == old(self).interleaving_depth(),
            final(self).interleaving_block_size() == old(self).interleaving_block_size(),
            final(self).adaptation_enabled() == old(self).adaptation_enabled(),
            old(self).history().len() < 5 ==> *final(self) == *old(self),
            old(self).history().len() >= 5 ==> {
                let recent = recent_five(old(self).history());
                &&& final(self).state() == (AdaptationState {
                    ecc_strength_permille: trend_strength(
                        old(self).state().ecc_strength_permille as nat,
                        recent,
                    ) as u32,
                    last_adaptation_ms: now_ms,
                    ..old(self).state()
                })
                &&& final(self).code_rate() == rate_for(recent)
            },
    {
        if self.quality_history.len() < 5 {
            return;
        }
        let ghost recent = recent_five(self.history());
        let (bers, signals) = self.recent_sums();
        let n = self.quality_history.len();
        let oldest = self.quality_history[n - 5].ber_ppm;
        let newest = self.quality_history[n - 1].ber_ppm;
        assert(recent[0] == self.history()[n - 5]);
        assert(recent[4] == self.history()[n - 1]);
        let strength = self.adaptation_state.ecc_strength_permille;
        let new_strength: u32 = if bers > 50000 && oldest > newest {
            if strength + 100 > 1000 {
                1000
            } else {
                strength + 100
            }
        } else if bers < 5000 && oldest < newest && signals > 4000 {
            if strength >= 250 {
                strength - 50
            } else {
                200
            }
        } else {
            strength
        };
        self.adaptation_state.ecc_strength_permille = new_strength;
        let rate: (usize, usize) = if signals < 2500 {
            (1, 3)
        } else if signals < 3500 {
            (1, 2)
        } else {
            (2, 3)
        };
        self.config.convolutional.code_rate = rate;
        self.convolutional_codec = ConvolutionalCodec::new(self.config.convolutional.clone());
        self.adaptation_state.last_adaptation_ms = now_ms;
    }
}

} // verus!

//! Audio channel: configuration and status, the bounded sample buffers, the
//! engine's transmit and receive bookkeeping, the tone each bit is sent as,
//! and the packing of received bits into bytes. Synthesizing and analysing
//! the samples themselves is floating-point work done outside this library.

use vstd::prelude::*;

verus! {

#[derive(Debug, Clone, Copy, PartialEq, Eq, Structural)]
pub enum AudioMode {
    /// Short-range ultrasonic communication, 18 to 22 kHz.
    Ultrasonic,
    /// Audible audio for testing.
    Standard,
}

#[derive(Debug, Clone, PartialEq, Eq)]
pub enum AudioError {
    TransmissionError(String),
    ReceptionError(String),
    DeviceUnavailable,
    InvalidParameters,
    BufferOverflow,
    Timeout,
}

#[derive(Debug, Clone, Copy, PartialEq, Eq, Structural)]
pub struct AudioConfig {
    pub sample_rate: u32,
    pub channels: u16,
    pub bits_per_sample: u16,
    pub buffer_size: usize,
    pub mode: AudioMode,
}

impl Default for AudioConfig {
    /// 44.1 kHz, mono, 16-bit samples, 1024-sample buffers, ultrasonic.
    fn default() -> (r: Self)
        ensures
            r == default_audio_config(),
    {
        AudioConfig { sample_rate: 44100, channels: 1, bits_per_sample: 16, buffer_size: 1024, mode: AudioMode::Ultrasonic }
    }
}

/// The default configuration: 44.1 kHz, mono, 16-bit samples, 1024-sample
/// buffers, ultrasonic.
pub open spec fn default_audio_config() -> AudioConfig {
    AudioConfig { sample_rate: 44100, channels: 1, bits_per_sample: 16, buffer_size: 1024, mode: AudioMode::Ultrasonic }
}

/// State of an audio engine.
#[derive(Debug, Clone, Copy, PartialEq, Eq, Structural)]
pub struct AudioEngineStatus {
    pub initialized: bool,
    pub mode: AudioMode,
    pub transmit_buffer_size: usize,
    pub receive_buffer_size: usize,
    /// Milliseconds since the epoch.
    pub last_transmission_ms: u64,
}

/// A bounded first-in first-out buffer of samples.
#[derive(Debug)]
pub struct AudioBuffer<T> {
    data: Vec<T>,
    max_size: usize,
}

impl<T> AudioBuffer<T> {
    pub closed spec fn contents(&self) -> Seq<T> {
        self.data@
    }

    pub closed spec fn capacity(&self) -> nat {
        self.max_size as nat
    }

    /// The buffer never holds more than its capacity.
    pub open spec fn wf(&self) -> bool {
        self.contents().len() <= self.capacity()
    }

    pub fn new(max_size: usize) -> (r: Self)
        ensures
            r.wf(),
            r.contents() == Seq::<T>::empty(),
            r.capacity() == max_size,
    {
        AudioBuffer { data: Vec::new(), max_size }
    }

    /// Appends a sample; a full buffer refuses it.
    pub fn push(&mut self, sample: T) -> (r: Result<(), AudioError>)
        requires
            old(self).wf(),
        ensures
            final(self).wf(),
            old(self).contents().len() == old(self).capacity() ==> r == Err::<(), AudioError>(AudioError::BufferOverflow)
                && final(self).contents() == old(self).contents(),
            old(self).contents().len() < old(self).capacity() ==> r is Ok && final(self).contents() == old(self).contents().push(
                sample,
            ),
            final(self).capacity() == old(self).capacity(),
    {
        if self.data.len() >= self.max_size {
            return Err(AudioError::BufferOverflow);
        }
        self.data.push(sample);
        Ok(())
    }

    /// Takes the oldest sample.
    pub fn pop(&mut self) -> (r: Option<T>)
        requires
            old(self).wf(),
        ensures
            final(self).wf(),
            old(self).contents().len() == 0 ==> r is None && final(self).contents() == old(self).contents(),
            old(self).contents().len() > 0 ==> r == Some(old(self).contents()[0]) && final(self).contents()
                == old(self).contents().drop_first(),
            final(self).capacity() == old(self).capacity(),
    {
        if self.data.len() == 0 {
            return None;
        }
        let x = self.data.remove(0);
        assert(self.data@ =~= old(self).contents().drop_first());
        Some(x)
    }

    pub fn len(&self) -> (r: usize)
        ensures
            r == self.contents().len(),
    {
        self.data.len()
    }

    pub fn clear(&mut self)
        ensures
            final(self).wf(),
            final(self).contents() == Seq::<T>::empty(),
            final(self).capacity() == old(self).capacity(),
    {
        self.data.clear();
    }

    /// Appends samples in order until the buffer is full: all of them fit,
    /// or an overflow leaves the buffer full with those that did.
    pub fn push_all(&mut self, samples: Vec<T>) -> (r: Result<(), AudioError>)
        requires
            old(self).wf(),
        ensures
            final(self).wf(),
            final(self).capacity() == old(self).capacity(),
            old(self).contents().len() + samples@.len() <= old(self).capacity() ==> r is Ok && final(self).contents()
                == old(self).contents() + samples@,
            old(self).contents().len() + samples@.len() > old(self).capacity() ==> r == Err::<(), AudioError>(
                AudioError::BufferOverflow,
            ) && final(self).contents() == old(self).contents() + samples@.take(
                old(self).capacity() - old(self).contents().len(),
            ),
    {
        let ghost all = samples@;
        let mut rest = samples;
        let ghost start = self.contents();
        let mut taken: usize = 0;
        while rest.len() > 0
            invariant
                self.wf(),
                taken + rest@.len() == all.len(),
                all == samples@,
                rest@ == all.subrange(taken as int, all.len() as int),
                self.contents() == start + all.take(taken as int),
                self.capacity() == old(self).capacity(),
                start == old(self).contents(),
            decreases rest@.len(),
        {
            let s = rest.remove(0);
            let ghost before = self.contents();
            match self.push(s) {
                Ok(()) => {},
                Err(e) => {
                    assert(before.len() == self.capacity());
                    assert(taken == old(self).capacity() - start.len());
                    assert(e == AudioError::BufferOverflow);
                    return Err(e);
                },
            }
            assert(all.take(taken + 1) =~= all.take(taken as int).push(all[taken as int]));
            assert(rest@ =~= all.subrange(taken + 1, all.len() as int));
            taken = taken + 1;
        }
        assert(all.take(all.len() as int) =~= all);
        Ok(())
    }

    /// Takes every sample, oldest first.
    pub fn drain(&mut self) -> (r: Vec<T>)
        requires
            old(self).wf(),
        ensures
            final(self).wf(),
            r@ == old(self).contents(),
            final(self).contents() == Seq::<T>::empty(),
            final(self).capacity() == old(self).capacity(),
    {
        let mut out: Vec<T> = Vec::new();
        let ghost all = self.contents();
        while self.data.len() > 0
            invariant
                self.wf(),
                out@ + self.contents() == all,
                self.capacity() == old(self).capacity(),
            decreases self.contents().len(),
        {
            let ghost rest = self.contents();
            match self.pop() {
                Some(x) => {
                    out.push(x);
                    assert(out@ + self.contents() =~= all) by {
                        assert(rest =~= seq![rest[0]] + rest.drop_first());
                    }
                },
                None => {},
            }
        }
        assert(out@ =~= all);
        out
    }
}

/// What a poll of the receive loop yields.
#[derive(Debug)]
pub enum AudioPoll<S> {
    /// The samples received, to be decoded.
    Samples(Vec<S>),
    /// Nothing yet: wait briefly and poll again.
    Wait,
    /// Reception ended with an error.
    Failed(AudioError),
}

/// Capacity of each sample buffer: the configured size, at least 64 Ki samples.
pub open spec fn buffer_capacity(config: AudioConfig) -> nat {
    if config.buffer_size > 65536 { config.buffer_size as nat } else { 65536 }
}

/// Configurations an engine can be initialized with: ultrasonic operation
/// needs at least 44.1 kHz.
pub open spec fn config_valid(config: AudioConfig) -> bool {
    config.mode == AudioMode::Standard || config.sample_rate >= 44100
}

/// Audio engine bookkeeping over samples of type `S`: the buffers of
/// samples to play and samples heard, whether the device is up, and when it
/// last transmitted.
#[derive(Debug)]
pub struct AudioEngine<S> {
    config: AudioConfig,
    transmit_buffer: AudioBuffer<S>,
    receive_buffer: AudioBuffer<S>,
    is_initialized: bool,
    last_transmission_ms: u64,
    transmission_timeout_ms: u64,
}

impl<S> AudioEngine<S> {
    pub closed spec fn configuration(&self) -> AudioConfig {
        self.config
    }

    pub closed spec fn initialized(&self) -> bool {
        self.is_initialized
    }

    pub closed spec fn transmit_queue(&self) -> Seq<S> {
        self.transmit_buffer.contents()
    }

    pub closed spec fn receive_queue(&self) -> Seq<S> {
        self.receive_buffer.contents()
    }

    /// Capacity of each buffer.
    pub closed spec fn capacity(&self) -> nat {
        self.transmit_buffer.capacity()
    }

    pub closed spec fn last_transmission(&self) -> u64 {
        self.last_transmission_ms
    }

    /// Both buffers within the common capacity.
    pub closed spec fn wf(&self) -> bool {
        &&& self.transmit_buffer.wf()
        &&& self.receive_buffer.wf()
        &&& self.transmit_buffer.capacity() == self.receive_buffer.capacity()
    }

    /// A stopped engine with the default configuration.
    pub fn new(now_ms: u64) -> (r: Self)
        ensures
            r.wf(),
            r.configuration() == default_audio_config(),
            !r.initialized(),
            r.transmit_queue().len() == 0,
            r.receive_queue().len() == 0,
            r.capacity() == 65536,
            r.last_transmission() == now_ms,
    {
        Self::with_config(AudioConfig::default(), now_ms)
    }

    /// A stopped engine whose buffers hold the configured size, at least 64 Ki samples.
    pub fn with_config(config: AudioConfig, now_ms: u64) -> (r: Self)
        ensures
            r.wf(),
            r.configuration() == config,
            !r.initialized(),
            r.transmit_queue().len() == 0,
            r.receive_queue().len() == 0,
            r.capacity() == buffer_capacity(config),
            r.last_transmission() == now_ms,
    {
        let size: usize = if config.buffer_size > 65536 { config.buffer_size } else { 65536 };
        AudioEngine {
            config,
            transmit_buffer: AudioBuffer::new(size),
            receive_buffer: AudioBuffer::new(size),
            is_initialized: false,
            last_transmission_ms: now_ms,
            transmission_timeout_ms: 100,
        }
    }

    /// Brings the device up; ultrasonic operation below 44.1 kHz is refused.
    pub fn initialize(&mut self) -> (r: Result<(), AudioError>)
        ensures
            config_valid(old(self).configuration()) ==> r is Ok && final(self).initialized(),
            !config_valid(old(self).configuration()) ==> r == Err::<(), AudioError>(AudioError::InvalidParameters)
                && final(self).initialized() == old(self).initialized(),
            final(self).configuration() == old(self).configuration(),
            final(self).transmit_queue() == old(self).transmit_queue(),
            final(self).receive_queue() == old(self).receive_queue(),
            final(self).capacity() == old(self).capacity(),
            final(self).wf() == old(self).wf(),
            final(self).last_transmission() == old(self).last_transmission(),
    {
        match self.config.mode {
            AudioMode::Ultrasonic => {
                if self.config.sample_rate < 44100 {
                    return Err(AudioError::InvalidParameters);
                }
            },
            AudioMode::Standard => {},
        }
        self.is_initialized = true;
        Ok(())
    }

    /// Takes the device down and empties both buffers.
    pub fn shutdown(&mut self) -> (r: Result<(), AudioError>)
        ensures
            r is Ok,
            !final(self).initialized(),
            final(self).transmit_queue().len() == 0,
            final(self).receive_queue().len() == 0,
            final(self).configuration() == old(self).configuration(),
            final(self).capacity() == old(self).capacity(),
            old(self).wf() ==> final(self).wf(),
            final(self).last_transmission() == old(self).last_transmission(),
    {
        self.is_initialized = false;
        self.transmit_buffer.clear();
        self.receive_buffer.clear();
        Ok(())
    }

    pub fn force_initialize_for_testing(&mut self)
        ensures
            final(self).initialized(),
            final(self).configuration() == old(self).configuration(),
            final(self).transmit_queue() == old(self).transmit_queue(),
            final(self).receive_queue() == old(self).receive_queue(),
            final(self).capacity() == old(self).capacity(),
            final(self).wf() == old(self).wf(),
    {
        self.is_initialized = true;
    }

    /// Queues the samples of a transmission and stamps its time: refused
    /// while the device is down; a full buffer stops the queueing with an
    /// overflow, keeping the samples that fitted.
    pub fn send_data(&mut self, samples: Vec<S>, now_ms: u64) -> (r: Result<(), AudioError>)
        requires
            old(self).wf(),
        ensures
            final(self).wf(),
            !old(self).initialized() ==> r == Err::<(), AudioError>(AudioError::DeviceUnavailable)
                && final(self).transmit_queue() == old(self).transmit_queue(),
            old(self).initialized() && old(self).transmit_queue().len() + samples@.len() <= old(self).capacity() ==> r is Ok
                && final(self).transmit_queue() == old(self).transmit_queue() + samples@ && final(self).last_transmission() == now_ms,
            old(self).initialized() && old(self).transmit_queue().len() + samples@.len() > old(self).capacity() ==> r == Err::<
                (),
                AudioError,
            >(AudioError::BufferOverflow) && final(self).transmit_queue() == old(self).transmit_queue() + samples@.take(
                old(self).capacity() - old(self).transmit_queue().len(),
            ),
            final(self).initialized() == old(self).initialized(),
            final(self).configuration() == old(self).configuration(),
            final(self).receive_queue() == old(self).receive_queue(),
            final(self).capacity() == old(self).capacity(),
    {
        if !self.is_initialized {
            return Err(AudioError::DeviceUnavailable);
        }
        match self.transmit_buffer.push_all(samples) {
            Ok(()) => {},
            Err(e) => {
                return Err(e);
            },
        }
        self.last_transmission_ms = now_ms;
        Ok(())
    }

    /// Queues heard samples for reception; a full buffer stops with an
    /// overflow, keeping the samples that fitted.
    pub fn simulate_receive(&mut self, samples: Vec<S>) -> (r: Result<(), AudioError>)
        requires
            old(self).wf(),
        ensures
            final(self).wf(),
            old(self).receive_queue().len() + samples@.len() <= old(self).capacity() ==> r is Ok && final(self).receive_queue()
                == old(self).receive_queue() + samples@,
            old(self).receive_queue().len() + samples@.len() > old(self).capacity() ==> r == Err::<(), AudioError>(
                AudioError::BufferOverflow,
            ) && final(self).receive_queue() == old(self).receive_queue() + samples@.take(
                old(self).capacity() - old(self).receive_queue().len(),
            ),
            final(self).initialized() == old(self).initialized(),
            final(self).transmit_queue() == old(self).transmit_queue(),
            final(self).configuration() == old(self).configuration(),
            final(self).capacity() == old(self).capacity(),
    {
        self.receive_buffer.push_all(samples)
    }

    /// One poll of the receive loop: refused while the device is down; with
    /// samples heard, all of them are taken for decoding; otherwise the loop
    /// waits, up to 500 ms.
    pub fn receive_data(&mut self, elapsed_ms: u64) -> (r: AudioPoll<S>)
        requires
            old(self).wf(),
        ensures
            final(self).wf(),
            !old(self).initialized() ==> (r matches AudioPoll::Failed(e) && e == AudioError::DeviceUnavailable),
            old(self).initialized() && old(self).receive_queue().len() == 0 && elapsed_ms > 500 ==> (r matches AudioPoll::Failed(
                e,
            ) && e == AudioError::Timeout),
            old(self).initialized() && old(self).receive_queue().len() == 0 && elapsed_ms <= 500 ==> r is Wait,
            old(self).initialized() && old(self).receive_queue().len() > 0 ==> (r matches AudioPoll::Samples(v) && v@
                == old(self).receive_queue()) && final(self).receive_queue().len() == 0,
            !(old(self).initialized() && old(self).receive_queue().len() > 0) ==> final(self).receive_queue() == old(self).receive_queue(),
            final(self).initialized() == old(self).initialized(),
            final(self).transmit_queue() == old(self).transmit_queue(),
            final(self).configuration() == old(self).configuration(),
            final(self).capacity() == old(self).capacity(),
    {
        if !self.is_initialized {
            return AudioPoll::Failed(AudioError::DeviceUnavailable);
        }
        if self.receive_buffer.len() == 0 {
            if elapsed_ms > 500 {
                return AudioPoll::Failed(AudioError::Timeout);
            }
            return AudioPoll::Wait;
        }
        AudioPoll::Samples(self.receive_buffer.drain())
    }

    /// Whether samples are waiting to be decoded on a running device.
    pub fn is_receiving(&self) -> (r: bool)
        ensures
            r == (self.initialized() && self.receive_queue().len() > 0),
    {
        self.is_initialized && self.receive_buffer.len() > 0
    }

    pub fn get_config(&self) -> (r: AudioConfig)
        ensures
            r == self.configuration(),
    {
        self.config
    }

    /// Replaces the configuration, then restarts the device under it.
    pub fn update_config(&mut self, config: AudioConfig) -> (r: Result<(), AudioError>)
        ensures
            final(self).configuration() == config,
            final(self).transmit_queue().len() == 0,
            final(self).receive_queue().len() == 0,
            config_valid(config) ==> r is Ok && final(self).initialized(),
            !config_valid(config) ==> r == Err::<(), AudioError>(AudioError::InvalidParameters) && !final(self).initialized(),
            final(self).capacity() == old(self).capacity(),
            old(self).wf() ==> final(self).wf(),
    {
        self.config = config;
        let _ = self.shutdown();
        self.initialize()
    }

    pub fn get_status(&self) -> (r: AudioEngineStatus)
        ensures
            r == (AudioEngineStatus {
                initialized: self.initialized(),
                mode: self.configuration().mode,
                transmit_buffer_size: self.transmit_queue().len() as usize,
                receive_buffer_size: self.receive_queue().len() as usize,
                last_transmission_ms: self.last_transmission(),
            }),
    {
        AudioEngineStatus {
            initialized: self.is_initialized,
            mode: self.config.mode,
            transmit_buffer_size: self.transmit_buffer.len(),
            receive_buffer_size: self.receive_buffer.len(),
            last_transmission_ms: self.last_transmission_ms,
        }
    }
}

/// How one bit is sounded: an ultrasonic sine (18 kHz for a zero, 20 kHz for
/// a one, half amplitude) for 10 ms, or in standard mode a constant
/// amplitude (0.2 for a zero, 0.8 for a one) for 20 ms, as a number of samples.
#[derive(Debug, Clone, Copy, PartialEq, Eq, Structural)]
pub struct AudioTone {
    /// Zero for a constant level.
    pub frequency_hz: u32,
    pub amplitude_permille: u32,
    pub samples: u32,
}

pub open spec fn tone_for(config: AudioConfig, bit: bool) -> AudioTone {
    match config.mode {
        AudioMode::Ultrasonic => AudioTone {
            frequency_hz: if bit { 20000u32 } else { 18000u32 },
            amplitude_permille: 500,
            samples: config.sample_rate / 100,
        },
        AudioMode::Standard => AudioTone {
            frequency_hz: 0,
            amplitude_permille: if bit { 800u32 } else { 200u32 },
            samples: config.sample_rate / 50,
        },
    }
}

/// The tones of a frame, one per bit, most significant bit first.
pub fn audio_tones(config: &AudioConfig, data: &[u8]) -> (r: Vec<AudioTone>)
    ensures
        r@ == crate::laser::transmission::bits_of(data@).map_values(|b: bool| tone_for(*config, b)),
{
    let bits = crate::laser::transmission::frame_bits(data);
    let mut out: Vec<AudioTone> = Vec::new();
    let mut i: usize = 0;
    while i < bits.len()
        invariant
            i <= bits@.len(),
            out@ == bits@.take(i as int).map_values(|b: bool| tone_for(*config, b)),
        decreases bits@.len() - i,
    {
        let bit = bits[i];
        let tone = match config.mode {
            AudioMode::Ultrasonic => AudioTone {
                frequency_hz: if bit { 20000 } else { 18000 },
                amplitude_permille: 500,
                samples: config.sample_rate / 100,
            },
            AudioMode::Standard => AudioTone {
                frequency_hz: 0,
                amplitude_permille: if bit { 800 } else { 200 },
                samples: config.sample_rate / 50,
            },
        };
        out.push(tone);
        assert(out@ =~= bits@.take(i + 1).map_values(|b: bool| tone_for(*config, b)));
        i = i + 1;
    }
    assert(bits@.take(bits@.len() as int) =~= bits@);
    out
}

/// Samples per received bit: 10 ms ultrasonic, 20 ms standard.
pub fn decode_chunk_size(config: &AudioConfig) -> (r: u32)
    ensures
        r == tone_for(*config, false).samples,
{
    match config.mode {
        AudioMode::Ultrasonic => config.sample_rate / 100,
        AudioMode::Standard => config.sample_rate / 50,
    }
}

} // verus!

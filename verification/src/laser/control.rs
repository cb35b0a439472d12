//! Laser control layer: laser presets by colour, the reception setup, and a
//! control engine that encodes frames through the optical error-correcting
//! code and drives the laser's intensity.

use vstd::prelude::*;
use crate::laser::ModulationScheme;
use crate::optical_ecc::{convolutional_form, interleaved_form, AdaptiveECCConfig, OpticalECC};

verus! {

/// Errors raised by laser control operations.
#[derive(Debug, Clone, PartialEq, Eq)]
pub enum LaserError {
    HardwareInit(String),
    SafetyViolation(String),
    ModulationError(String),
    Timeout,
    InvalidConfig(String),
    EnvironmentalHazard,
    AlignmentFailed,
    PowerError(String),
    EccError(String),
}

/// Kinds of laser by colour.
#[derive(Debug, Clone, Copy, PartialEq, Eq, Structural)]
pub enum LaserType {
    Red,
    Green,
    Blue,
    Infrared,
    UV,
    External,
}

/// Laser parameters, in fixed units.
#[derive(Debug, Clone, Copy, PartialEq, Eq, Structural)]
pub struct LaserConfig {
    pub laser_type: LaserType,
    pub modulation_scheme: ModulationScheme,
    /// Microwatts.
    pub max_power_uw: u32,
    pub wavelength_nm: u32,
    /// Micrometers.
    pub beam_diameter_um: u32,
    /// Centimeters.
    pub range_cm: u32,
    pub safety_enabled: bool,
}

/// A preset: on-off keying with safety checks.
pub open spec fn preset(laser_type: LaserType, max_power_uw: u32, wavelength_nm: u32, beam_diameter_um: u32, range_cm: u32) -> LaserConfig {
    LaserConfig {
        laser_type,
        modulation_scheme: ModulationScheme::Ook,
        max_power_uw,
        wavelength_nm,
        beam_diameter_um,
        range_cm,
        safety_enabled: true,
    }
}

impl LaserConfig {
    /// A 5 mW red laser at 650 nm, 2 mm beam, 100 m.
    pub fn red() -> (r: Self)
        ensures
            r == preset(LaserType::Red, 5000, 650, 2000, 10000),
    {
        LaserConfig {
            laser_type: LaserType::Red,
            modulation_scheme: ModulationScheme::Ook,
            max_power_uw: 5000,
            wavelength_nm: 650,
            beam_diameter_um: 2000,
            range_cm: 10000,
            safety_enabled: true,
        }
    }

    /// A 5 mW green laser at 532 nm, 2 mm beam, 100 m.
    pub fn green() -> (r: Self)
        ensures
            r == preset(LaserType::Green, 5000, 532, 2000, 10000),
    {
        LaserConfig {
            laser_type: LaserType::Green,
            modulation_scheme: ModulationScheme::Ook,
            max_power_uw: 5000,
            wavelength_nm: 532,
            beam_diameter_um: 2000,
            range_cm: 10000,
            safety_enabled: true,
        }
    }

    /// A 5 mW blue laser at 450 nm, 2 mm beam, 100 m.
    pub fn blue() -> (r: Self)
        ensures
            r == preset(LaserType::Blue, 5000, 450, 2000, 10000),
    {
        LaserConfig {
            laser_type: LaserType::Blue,
            modulation_scheme: ModulationScheme::Ook,
            max_power_uw: 5000,
            wavelength_nm: 450,
            beam_diameter_um: 2000,
            range_cm: 10000,
            safety_enabled: true,
        }
    }

    /// A 10 mW infrared laser at 980 nm, 2 mm beam, 200 m.
    pub fn infrared() -> (r: Self)
        ensures
            r == preset(LaserType::Infrared, 10000, 980, 2000, 20000),
    {
        LaserConfig {
            laser_type: LaserType::Infrared,
            modulation_scheme: ModulationScheme::Ook,
            max_power_uw: 10000,
            wavelength_nm: 980,
            beam_diameter_um: 2000,
            range_cm: 20000,
            safety_enabled: true,
        }
    }

    /// A 1 mW near-ultraviolet laser at 405 nm, 1.5 mm beam, 50 m.
    pub fn uv() -> (r: Self)
        ensures
            r == preset(LaserType::UV, 1000, 405, 1500, 5000),
    {
        LaserConfig {
            laser_type: LaserType::UV,
            modulation_scheme: ModulationScheme::Ook,
            max_power_uw: 1000,
            wavelength_nm: 405,
            beam_diameter_um: 1500,
            range_cm: 5000,
            safety_enabled: true,
        }
    }

    /// A 5 mW external laser at the given wavelength, 2 mm beam, 100 m.
    pub fn external(wavelength_nm: u32) -> (r: Self)
        ensures
            r == preset(LaserType::External, 5000, wavelength_nm, 2000, 10000),
    {
        LaserConfig {
            laser_type: LaserType::External,
            modulation_scheme: ModulationScheme::Ook,
            max_power_uw: 5000,
            wavelength_nm,
            beam_diameter_um: 2000,
            range_cm: 10000,
            safety_enabled: true,
        }
    }
}

impl Default for LaserConfig {
    /// The red laser.
    fn default() -> (r: Self)
        ensures
            r == preset(LaserType::Red, 5000, 650, 2000, 10000),
    {
        Self::red()
    }
}

/// Receiver parameters, in fixed units.
#[derive(Debug, Clone, Copy)]
pub struct ReceptionConfig {
    /// Per-mille.
    pub photodiode_sensitivity_permille: u32,
    pub camera_resolution: (u32, u32),
    pub frame_rate_hz: u32,
    pub exposure_time_us: u32,
}

impl Default for ReceptionConfig {
    /// A 0.8 photodiode sensitivity and a 640x480 camera at 30 Hz, 1 ms exposure.
    fn default() -> (r: Self)
        ensures
            r == (ReceptionConfig {
                photodiode_sensitivity_permille: 800,
                camera_resolution: (640, 480),
                frame_rate_hz: 30,
                exposure_time_us: 1000,
            }),
    {
        ReceptionConfig { photodiode_sensitivity_permille: 800, camera_resolution: (640, 480), frame_rate_hz: 30, exposure_time_us: 1000 }
    }
}

/// Bytes every reception of the control engine reads before decoding.
pub open spec fn received_pattern() -> Seq<u8> {
    seq![0xAAu8, 0x55]
}

/// The power of an intensity (per-mille) under a configuration, microwatts.
pub open spec fn intensity_power_uw(config: LaserConfig, intensity_permille: u32) -> int {
    intensity_permille * config.max_power_uw / 1000
}

/// The laser control engine.
#[derive(Debug)]
pub struct LaserEngine {
    config: LaserConfig,
    rx_config: ReceptionConfig,
    optical_ecc: OpticalECC,
    range_detector_attached: bool,
    is_initialized: bool,
    current_power_uw: u32,
    modulation_scheme: ModulationScheme,
}

impl LaserEngine {
    pub closed spec fn config(&self) -> LaserConfig {
        self.config
    }

    pub closed spec fn reception(&self) -> ReceptionConfig {
        self.rx_config
    }

    pub closed spec fn initialized(&self) -> bool {
        self.is_initialized
    }

    pub closed spec fn power_uw(&self) -> u32 {
        self.current_power_uw
    }

    pub closed spec fn scheme(&self) -> ModulationScheme {
        self.modulation_scheme
    }

    pub closed spec fn range_detector(&self) -> bool {
        self.range_detector_attached
    }

    pub closed spec fn wf(&self) -> bool {
        self.optical_ecc.wf()
    }

    /// An uninitialized, unpowered engine with the default optical code and
    /// the configured modulation.
    pub fn new(config: LaserConfig, rx_config: ReceptionConfig) -> (r: Self)
        ensures
            r.wf(),
            r.config() == config,
            r.reception() == rx_config,
            !r.initialized(),
            r.power_uw() == 0,
            r.scheme() == config.modulation_scheme,
            !r.range_detector(),
    {
        let ecc_config = AdaptiveECCConfig::default();
        LaserEngine {
            config,
            rx_config,
            optical_ecc: OpticalECC::new(ecc_config, 0),
            range_detector_attached: false,
            is_initialized: false,
            current_power_uw: 0,
            modulation_scheme: config.modulation_scheme,
        }
    }

    pub fn initialize(&mut self) -> (r: Result<(), LaserError>)
        ensures
            r is Ok,
            final(self).initialized(),
            final(self).power_uw() == old(self).power_uw(),
            final(self).config() == old(self).config(),
            final(self).scheme() == old(self).scheme(),
            final(self).wf() == old(self).wf(),
    {
        self.is_initialized = true;
        Ok(())
    }

    /// Turns the laser off and marks it uninitialized.
    pub fn shutdown(&mut self) -> (r: Result<(), LaserError>)
        ensures
            r is Ok,
            !final(self).initialized(),
            final(self).power_uw() == 0,
            final(self).config() == old(self).config(),
            final(self).scheme() == old(self).scheme(),
            final(self).wf() == old(self).wf(),
    {
        self.current_power_uw = 0;
        self.is_initialized = false;
        Ok(())
    }

    /// Sets the intensity (per-mille); above one it is refused as an
    /// invalid configuration.
    pub fn set_laser_intensity(&mut self, intensity_permille: u32) -> (r: Result<(), LaserError>)
        ensures
            intensity_permille > 1000 ==> (r matches Err(LaserError::InvalidConfig(m))
                && m@ == "Intensity must be between 0.0 and 1.0"@) && final(self).power_uw() == old(self).power_uw(),
            intensity_permille <= 1000 ==> r is Ok && final(self).power_uw() == intensity_power_uw(
                old(self).config(),
                intensity_permille,
            ),
            final(self).initialized() == old(self).initialized(),
            final(self).config() == old(self).config(),
            final(self).scheme() == old(self).scheme(),
            final(self).wf() == old(self).wf(),
    {
        if intensity_permille > 1000 {
            return Err(LaserError::InvalidConfig("Intensity must be between 0.0 and 1.0".to_owned()));
        }
        let max = self.config.max_power_uw as u64;
        assert((intensity_permille as u64) * max <= 1000 * max) by (nonlinear_arith)
            requires intensity_permille <= 1000;
        let p = (intensity_permille as u64) * max / 1000;
        assert(p <= max) by (nonlinear_arith)
            requires p == (intensity_permille as u64) * max / 1000, intensity_permille <= 1000;
        self.current_power_uw = p as u32;
        Ok(())
    }

    /// Checks a pulse-width duty cycle (per-mille); above one it is refused.
    pub fn transmit_pwm_byte(&self, duty_cycle_permille: u32) -> (r: Result<(), LaserError>)
        ensures
            duty_cycle_permille > 1000 ==> (r matches Err(LaserError::InvalidConfig(m))
                && m@ == "Duty cycle must be between 0.0 and 1.0"@),
            duty_cycle_permille <= 1000 ==> r is Ok,
    {
        if duty_cycle_permille > 1000 {
            return Err(LaserError::InvalidConfig("Duty cycle must be between 0.0 and 1.0".to_owned()));
        }
        Ok(())
    }

    /// Encodes through the optical error-correcting code.
    pub fn encode_with_ecc(&mut self, data: &[u8]) -> (r: Result<Vec<u8>, LaserError>)
        requires
            old(self).wf(),
        ensures
            r is Ok,
            r->Ok_0@ == interleaved_form(convolutional_form(data@)),
            *final(self) == *old(self),
    {
        match self.optical_ecc.encode(data) {
            Ok(v) => Ok(v),
            Err(_) => Err(LaserError::EccError("ECC encoding failed".to_owned())),
        }
    }

    /// Decodes through the optical error-correcting code.
    pub fn decode_with_ecc(&mut self, data: &[u8]) -> (r: Result<Vec<u8>, LaserError>)
        requires
            old(self).wf(),
        ensures
            r is Ok,
            interleaved_form(convolutional_form(r->Ok_0@)) == data@,
            *final(self) == *old(self),
    {
        match self.optical_ecc.decode(data) {
            Ok(v) => Ok(v),
            Err(_) => Err(LaserError::EccError("ECC decoding failed".to_owned())),
        }
    }

    /// Sends a frame: refused before initialization; otherwise encoded, and
    /// under on-off keying each bit of the code (most significant first)
    /// sets the laser fully on or off, leaving it at the last bit's power.
    pub fn transmit_data(&mut self, data: &[u8]) -> (r: Result<(), LaserError>)
        requires
            old(self).wf(),
        ensures
            !old(self).initialized() ==> (r matches Err(LaserError::HardwareInit(m)) && m@ == "Laser not initialized"@)
                && final(self).power_uw() == old(self).power_uw(),
            old(self).initialized() ==> r is Ok && ({
                let bits = crate::laser::transmission::bits_of(interleaved_form(convolutional_form(data@)));
                &&& old(self).scheme() == ModulationScheme::Ook && bits.len() > 0 ==> final(self).power_uw()
                    == intensity_power_uw(old(self).config(), if bits.last() { 1000 } else { 0 })
                &&& (old(self).scheme() != ModulationScheme::Ook || bits.len() == 0) ==> final(self).power_uw()
                    == old(self).power_uw()
            }),
            final(self).initialized() == old(self).initialized(),
            final(self).config() == old(self).config(),
            final(self).wf() == old(self).wf(),
    {
        if !self.is_initialized {
            return Err(LaserError::HardwareInit("Laser not initialized".to_owned()));
        }
        let encoded = self.encode_with_ecc(data)?;
        match self.modulation_scheme {
            ModulationScheme::Ook => {
                let bits = crate::laser::transmission::frame_bits(encoded.as_slice());
                let mut i: usize = 0;
                while i < bits.len()
                    invariant
                        i <= bits@.len(),
                        self.initialized() == old(self).initialized(),
                        self.config() == old(self).config(),
                        self.scheme() == old(self).scheme(),
                        self.wf() == old(self).wf(),
                        i == 0 ==> self.power_uw() == old(self).power_uw(),
                        i > 0 ==> self.power_uw() == intensity_power_uw(self.config(), if bits@[i - 1] { 1000 } else { 0 }),
                    decreases bits@.len() - i,
                {
                    let intensity: u32 = if bits[i] { 1000 } else { 0 };
                    let _ = self.set_laser_intensity(intensity);
                    i = i + 1;
                }
                Ok(())
            },
            ModulationScheme::Pwm => {
                let mut i: usize = 0;
                while i < encoded.len()
                    invariant
                        i <= encoded@.len(),
                    decreases encoded@.len() - i,
                {
                    let duty = (encoded[i] as u32) * 1000 / 255;
                    let _ = self.transmit_pwm_byte(duty);
                    i = i + 1;
                }
                Ok(())
            },
            _ => Ok(()),
        }
    }

    /// Receives a frame: refused before initialization; otherwise the
    /// received bytes (for every scheme, 0xAA 0x55) are decoded.
    pub fn receive_data(&mut self, timeout_ms: u64) -> (r: Result<Vec<u8>, LaserError>)
        requires
            old(self).wf(),
        ensures
            !old(self).initialized() ==> (r matches Err(LaserError::HardwareInit(m)) && m@ == "Laser not initialized"@),
            old(self).initialized() ==> r is Ok && interleaved_form(convolutional_form(r->Ok_0@)) == received_pattern(),
            *final(self) == *old(self),
    {
        if !self.is_initialized {
            return Err(LaserError::HardwareInit("Laser not initialized".to_owned()));
        }
        let raw: Vec<u8> = vec![0xAAu8, 0x55];
        assert(raw@ == received_pattern());
        self.decode_with_ecc(raw.as_slice())
    }

    /// Attaches a range detector.
    pub fn enable_adaptive_mode(&mut self)
        ensures
            final(self).range_detector(),
            final(self).initialized() == old(self).initialized(),
            final(self).power_uw() == old(self).power_uw(),
            final(self).config() == old(self).config(),
            final(self).wf() == old(self).wf(),
    {
        self.range_detector_attached = true;
    }

    /// Detaches the range detector.
    pub fn disable_adaptive_mode(&mut self)
        ensures
            !final(self).range_detector(),
            final(self).initialized() == old(self).initialized(),
            final(self).power_uw() == old(self).power_uw(),
            final(self).config() == old(self).config(),
            final(self).wf() == old(self).wf(),
    {
        self.range_detector_attached = false;
    }

    pub fn get_current_power_consumption(&self) -> (r: u32)
        ensures
            r == self.power_uw(),
    {
        self.current_power_uw
    }

    /// Active means initialized and emitting.
    pub fn is_active(&self) -> (r: bool)
        ensures
            r == (self.initialized() && self.power_uw() > 0),
    {
        self.is_initialized && self.current_power_uw > 0
    }
}

} // verus!

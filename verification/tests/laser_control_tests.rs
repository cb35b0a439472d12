use rgibberlink_core::laser::control::{LaserConfig, LaserEngine, LaserError, LaserType, ReceptionConfig};
use rgibberlink_core::laser::ModulationScheme;

#[test]
fn test_laser_presets() {
    let red = LaserConfig::red();
    assert_eq!(red.laser_type, LaserType::Red);
    assert_eq!(red.wavelength_nm, 650);
    assert_eq!(red.max_power_uw, 5000);
    assert_eq!(LaserConfig::default(), red);
    assert_eq!(LaserConfig::green().wavelength_nm, 532);
    assert_eq!(LaserConfig::blue().wavelength_nm, 450);
    let ir = LaserConfig::infrared();
    assert_eq!((ir.max_power_uw, ir.wavelength_nm, ir.range_cm), (10000, 980, 20000));
    let uv = LaserConfig::uv();
    assert_eq!((uv.max_power_uw, uv.wavelength_nm, uv.beam_diameter_um, uv.range_cm), (1000, 405, 1500, 5000));
    let ext = LaserConfig::external(780);
    assert_eq!((ext.laser_type, ext.wavelength_nm), (LaserType::External, 780));
    assert!(ext.safety_enabled);
    assert_eq!(ext.modulation_scheme, ModulationScheme::Ook);
    assert_eq!(ReceptionConfig::default().camera_resolution, (640, 480));
}

#[test]
fn test_control_engine_lifecycle() {
    let mut engine = LaserEngine::new(LaserConfig::red(), ReceptionConfig::default());
    assert!(!engine.is_active());
    assert_eq!(engine.transmit_data(&[1, 2]), Err(LaserError::HardwareInit("Laser not initialized".to_string())));
    assert_eq!(engine.receive_data(100), Err(LaserError::HardwareInit("Laser not initialized".to_string())));
    engine.initialize().unwrap();
    assert!(!engine.is_active());
    assert_eq!(engine.transmit_data(&[0x01]), Ok(()));
    assert_eq!(engine.get_current_power_consumption(), 5000);
    assert!(engine.is_active());
    assert_eq!(engine.transmit_data(&[0x02]), Ok(()));
    assert_eq!(engine.get_current_power_consumption(), 0);
    assert_eq!(engine.receive_data(100), Ok(vec![0xAA, 0x55]));
    engine.shutdown().unwrap();
    assert!(!engine.is_active());
    assert_eq!(engine.get_current_power_consumption(), 0);
}

#[test]
fn test_control_intensity_limits() {
    let mut engine = LaserEngine::new(LaserConfig::uv(), ReceptionConfig::default());
    assert_eq!(engine.set_laser_intensity(500), Ok(()));
    assert_eq!(engine.get_current_power_consumption(), 500);
    assert_eq!(
        engine.set_laser_intensity(1001),
        Err(LaserError::InvalidConfig("Intensity must be between 0.0 and 1.0".to_string()))
    );
    assert_eq!(engine.get_current_power_consumption(), 500);
    assert_eq!(engine.transmit_pwm_byte(1000), Ok(()));
    assert_eq!(
        engine.transmit_pwm_byte(1001),
        Err(LaserError::InvalidConfig("Duty cycle must be between 0.0 and 1.0".to_string()))
    );
    let data = vec![7u8, 8, 9];
    let encoded = engine.encode_with_ecc(&data).unwrap();
    assert_eq!(engine.decode_with_ecc(&encoded).unwrap(), data);
}

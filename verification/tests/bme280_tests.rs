use enviro_sensors::BME280Error;
use enviro_sensors::bme280::BME280Core;
use enviro_sensors::bme280::CalibrationPoll;
use enviro_sensors::bme280::calibration_poll_step;
use enviro_sensors::bme280::check_chip_id;
use enviro_sensors::bme280::is_reading_calibration;
use enviro_sensors::bme280::setup_register_writes;
use enviro_sensors::bme280::unpack_sample;
use enviro_sensors::bme280::BME280_REGISTER_CONFIG;
use enviro_sensors::bme280::BME280_REGISTER_CONTROL;
use enviro_sensors::bme280::BME280_REGISTER_CONTROLHUMID;
use enviro_sensors::calibration::CalibrationRegisters;
use enviro_sensors::configuration::Filter;
use enviro_sensors::configuration::Oversampling;
use enviro_sensors::configuration::SamplingConfiguration;
use enviro_sensors::configuration::SensorMode;
use enviro_sensors::configuration::StandbyDuration;

/// The device's reference coefficient table, serialized exactly as the two
/// calibration burst blocks hand it over (little-endian words, the two
/// humidity nibble fields packed into byte 30).
const CALIBRATION_BLOCK: [u8; 33] = [
    112, 107, 67, 103, 24, 252, 125, 142, 67, 214, 208, 11, 39, 11, 140, 0, 249, 255, 140, 60,
    248, 198, 112, 23, 160, 75, 106, 1, 0, 19, 43, 3, 30,
];

fn calibrated_core() -> BME280Core {
    let mut core = BME280Core::new();
    core.store_calibration(&CALIBRATION_BLOCK[..26], &CALIBRATION_BLOCK[26..]);
    core
}

#[test]
fn parse_reference_coefficients() {
    let cal = CalibrationRegisters::parse(&CALIBRATION_BLOCK);
    assert_eq!(cal.dig_t1, 27504);
    assert_eq!(cal.dig_t2, 26435);
    assert_eq!(cal.dig_t3, -1000);
    assert_eq!(cal.dig_p1, 36477);
    assert_eq!(cal.dig_p2, -10685);
    assert_eq!(cal.dig_p3, 3024);
    assert_eq!(cal.dig_p4, 2855);
    assert_eq!(cal.dig_p5, 140);
    assert_eq!(cal.dig_p6, -7);
    assert_eq!(cal.dig_p7, 15500);
    assert_eq!(cal.dig_p8, -14600);
    assert_eq!(cal.dig_p9, 6000);
    assert_eq!(cal.dig_h1, 75);
    assert_eq!(cal.dig_h2, 362);
    assert_eq!(cal.dig_h3, 0);
    assert_eq!(cal.dig_h4, 315);
    assert_eq!(cal.dig_h5, 50);
    assert_eq!(cal.dig_h6, 30);
}

/// The datasheet's documented fixed-point path on its reference input:
/// raw temperature 519888 must give t_fine 128422 and 25.08 degrees; raw
/// pressure 415148 must give 100653.25 Pa in 2^8 fixed point.
#[test]
fn compensation_reference_vector() {
    let cal = CalibrationRegisters::parse(&CALIBRATION_BLOCK);
    let t_fine = cal.compensate_temperature(519888);
    assert_eq!(t_fine, 128422);
    assert_eq!(CalibrationRegisters::temperature_centi(t_fine), 2508);
    let p = cal.compensate_pressure(415148, t_fine);
    assert_eq!(p, 25767233);
    let h = cal.compensate_humidity(32768, t_fine);
    assert_eq!(h, 71319);
    // The fixed-point scales against their physical units.
    assert!(((2508 as f32) / 100.0 - 25.08).abs() < 1e-6);
    assert!(((p as f32) / 256.0 - 100653.25).abs() < 0.01);
    assert!(((h as f32) / 1024.0 - 69.647).abs() < 0.001);
}

#[test]
fn humidity_never_exceeds_full_scale() {
    let cal = CalibrationRegisters::parse(&CALIBRATION_BLOCK);
    for adc_h in [0u16, 1, 0x8000, 0xFFFE, 0xFFFF] {
        for t_fine in [-4194304i64, -128000, 0, 128422, 4194304] {
            assert!(cal.compensate_humidity(adc_h, t_fine) <= 102400);
        }
    }
}

/// An all-zero coefficient table drives the pressure denominator to zero:
/// the result saturates to the maximum sentinel instead of dividing.
#[test]
fn pressure_zero_denominator_saturates() {
    let cal = CalibrationRegisters::parse(&[0u8; 33]);
    let t_fine = cal.compensate_temperature(519888);
    assert_eq!(t_fine, 0);
    assert_eq!(cal.compensate_pressure(415148, t_fine), u32::MAX);
}

#[test]
fn unpack_burst_sample() {
    let data = [0x12, 0x34, 0x56, 0x78, 0x9A, 0xBC, 0xDE, 0xF0];
    let (adc_p, adc_t, adc_h) = unpack_sample(&data);
    assert_eq!(adc_p, 0x12345);
    assert_eq!(adc_t, 0x789AB);
    assert_eq!(adc_h, 0xDEF0);
}

#[test]
fn read_before_setup_is_not_calibrated() {
    let core = BME280Core::new();
    let sample = [0x65, 0x5A, 0xC0, 0x7E, 0xED, 0x00, 0x80, 0x00];
    assert_eq!(core.decode(&sample), Err(BME280Error::NotCalibrated));
}

#[test]
fn decode_after_setup_compensates() {
    let core = calibrated_core();
    // Raw counts 415148 / 519888 / 32768 packed as a burst sample.
    let sample = [0x65, 0x5A, 0xC0, 0x7E, 0xED, 0x00, 0x80, 0x00];
    let r = core.decode(&sample).unwrap();
    assert_eq!(r.temperature_centi, 2508);
    assert_eq!(r.pressure_q8, 25767233);
    assert_eq!(r.humidity_q10, 71319);
}

#[test]
fn chip_id_check() {
    assert_eq!(check_chip_id(0x60), Ok(()));
    assert_eq!(check_chip_id(0x58), Err(BME280Error::InvalidChipId(0x58)));
}

#[test]
fn calibration_busy_bit() {
    assert!(is_reading_calibration(0x08));
    assert!(is_reading_calibration(0xFF));
    assert!(!is_reading_calibration(0x00));
    assert!(!is_reading_calibration(0xF7));
}

#[test]
fn calibration_poll_decisions() {
    // Overall bound exceeded.
    assert_eq!(calibration_poll_step(1000, 1000, Some(0x00)), CalibrationPoll::TimedOut);
    // Busy: wait and poll again.
    assert_eq!(calibration_poll_step(1000, 0, Some(0x08)), CalibrationPoll::Wait);
    // Not busy: proceed.
    assert_eq!(calibration_poll_step(1000, 990, Some(0x00)), CalibrationPoll::Proceed);
    // Transport failure while polling: the lenient policy proceeds.
    assert_eq!(calibration_poll_step(1000, 0, None), CalibrationPoll::Proceed);
}

#[test]
fn configuration_registers_encode() {
    let cfg = SamplingConfiguration::default()
        .with_temperature_oversampling(Oversampling::X4)
        .with_pressure_oversampling(Oversampling::X4)
        .with_humidity_oversampling(Oversampling::X4)
        .with_sensor_mode(SensorMode::Normal)
        .with_standby_duration(StandbyDuration::Millis1000)
        .with_filter(Filter::X8);
    let (config, ctrl_meas, ctrl_hum) = cfg.to_low_level_configuration();
    assert_eq!(config, 0xAC);
    assert_eq!(ctrl_meas, 0x6F);
    assert_eq!(ctrl_hum, 0x03);
}

/// The configuration writes must go out in this exact order, because the
/// device only latches humidity oversampling while asleep and before the
/// measurement-control write.
#[test]
fn setup_writes_in_mandated_order() {
    let cfg = SamplingConfiguration::default()
        .with_humidity_oversampling(Oversampling::X2)
        .with_sensor_mode(SensorMode::Normal)
        .with_standby_duration(StandbyDuration::Millis125)
        .with_filter(Filter::X16);
    let writes = setup_register_writes(&cfg);
    let (config, ctrl_meas, ctrl_hum) = cfg.to_low_level_configuration();
    assert_eq!(writes.len(), 4);
    assert_eq!(writes[0], (BME280_REGISTER_CONTROL, 0x00));
    assert_eq!(writes[1], (BME280_REGISTER_CONTROLHUMID, ctrl_hum));
    assert_eq!(writes[2], (BME280_REGISTER_CONFIG, config));
    assert_eq!(writes[3], (BME280_REGISTER_CONTROL, ctrl_meas));
}

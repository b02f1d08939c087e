use enviro_sensors::SCD41Error;
use enviro_sensors::scd41::AcquisitionState;
use enviro_sensors::scd41::BusRequest;
use enviro_sensors::scd41::Command;
use enviro_sensors::scd41::PollResult;
use enviro_sensors::scd41::SCD41Core;
use enviro_sensors::scd41::command_bytes;
use enviro_sensors::scd41::decode_measurement;

/// A measurement buffer with valid checksums: CO2 1000 ppm, temperature raw
/// 0x6A56, humidity raw 0x8000.
const MEASUREMENT: [u8; 9] = [0x03, 0xE8, 0xD4, 0x6A, 0x56, 0xE2, 0x80, 0x00, 0xA2];

#[test]
fn command_words() {
    assert_eq!(command_bytes(Command::StopPeriodic), (0x3f, 0x86));
    assert_eq!(command_bytes(Command::Reinit), (0x36, 0x46));
    assert_eq!(command_bytes(Command::StartPeriodic), (0x21, 0xb1));
    assert_eq!(command_bytes(Command::DataReadyStatus), (0xe4, 0xb8));
    assert_eq!(command_bytes(Command::ReadMeasurement), (0xec, 0x05));
}

#[test]
fn decode_co2_buffer() {
    let r = decode_measurement(&MEASUREMENT).unwrap();
    assert_eq!(r.co2, 1000);
    assert_eq!(r.raw_temperature, 0x6A56);
    assert_eq!(r.raw_humidity, 0x8000);
    // The device's linear conversion formulas over the raw words.
    let co2 = r.co2 as f32;
    let temperature = -45.0 + 175.0 * (r.raw_temperature as f32) / 65535.0;
    let humidity = 100.0 * (r.raw_humidity as f32) / 65535.0;
    assert_eq!(co2, 1000.0);
    assert!((humidity - 50.0).abs() < 0.01);
    assert!((temperature - 27.69).abs() < 0.01);
}

#[test]
fn decode_rejects_bad_checksum() {
    let mut bad = MEASUREMENT;
    bad[5] ^= 0x01;
    assert_eq!(decode_measurement(&bad), Err(SCD41Error::CrcMismatch));
}

#[test]
fn warmup_walks_states_in_order() {
    let mut m = SCD41Core::new();
    assert_eq!(m.state, AcquisitionState::Initial);

    // First eligible call: pure transition, no transaction, NoData.
    let r = m.poll(0);
    assert_eq!(r, PollResult::Complete(Err(SCD41Error::NoData)));
    assert_eq!(m.state, AcquisitionState::StopMeasurement);

    // Early call: rate-limited, still no transaction.
    assert_eq!(m.poll(999), PollResult::Complete(Err(SCD41Error::NoData)));
    assert_eq!(m.state, AcquisitionState::StopMeasurement);

    // Stop-measurement command, then Reinit.
    let r = m.poll(1000);
    assert_eq!(r, PollResult::Request(BusRequest::Write(Command::StopPeriodic)));
    assert_eq!(m.on_write_done(1000), Err(SCD41Error::NoData));
    assert_eq!(m.state, AcquisitionState::Reinit);

    let r = m.poll(2000);
    assert_eq!(r, PollResult::Request(BusRequest::Write(Command::Reinit)));
    assert_eq!(m.on_write_done(2000), Err(SCD41Error::NoData));
    assert_eq!(m.state, AcquisitionState::StartMeasurement);

    let r = m.poll(3000);
    assert_eq!(r, PollResult::Request(BusRequest::Write(Command::StartPeriodic)));
    assert_eq!(m.on_write_done(3000), Err(SCD41Error::NoData));
    assert_eq!(m.state, AcquisitionState::ReadData);

    let r = m.poll(4000);
    assert_eq!(r, PollResult::Request(BusRequest::WriteRead(Command::DataReadyStatus)));
}

#[test]
fn early_read_serves_cached_value_without_transaction() {
    let mut m = SCD41Core {
        state: AcquisitionState::ReadData,
        next_eligible: 0,
        cached: None,
    };
    // Ready status, then a clean measurement at time 10000.
    let status = [0x00, 0x01, 0xB0, 0, 0, 0x81, 0, 0, 0x81];
    assert_eq!(
        m.on_status(10000, &status),
        PollResult::Request(BusRequest::WriteRead(Command::ReadMeasurement))
    );
    let reading = m.on_measurement(10000, &MEASUREMENT).unwrap();
    assert_eq!(m.next_eligible, 15000);

    // Early calls complete with the cached value and ask for no transaction.
    assert_eq!(m.poll(10001), PollResult::Complete(Ok(reading)));
    assert_eq!(m.poll(14999), PollResult::Complete(Ok(reading)));
    assert_eq!(m.state, AcquisitionState::ReadData);

    // Once the eligibility time arrives, a transaction is requested again.
    assert_eq!(
        m.poll(15000),
        PollResult::Request(BusRequest::WriteRead(Command::DataReadyStatus))
    );
}

#[test]
fn early_read_serves_no_data_before_first_reading() {
    let mut m = SCD41Core::new();
    m.poll(0);
    // Rate-limited and nothing cached yet.
    assert_eq!(m.poll(500), PollResult::Complete(Err(SCD41Error::NoData)));
}

#[test]
fn transport_failure_leaves_state_and_retries_same_command() {
    let mut m = SCD41Core {
        state: AcquisitionState::StartMeasurement,
        next_eligible: 2000,
        cached: None,
    };
    let r = m.poll(2500);
    assert_eq!(r, PollResult::Request(BusRequest::Write(Command::StartPeriodic)));
    // The transport fails: the caller reports nothing back. The machine is
    // exactly as it was, and the next eligible call asks for the identical
    // command.
    assert_eq!(m.state, AcquisitionState::StartMeasurement);
    assert_eq!(m.next_eligible, 2000);
    assert_eq!(m.cached, None);
    let r = m.poll(4000);
    assert_eq!(r, PollResult::Request(BusRequest::Write(Command::StartPeriodic)));
}

#[test]
fn status_not_ready_rearms_and_stays() {
    let mut m = SCD41Core {
        state: AcquisitionState::ReadData,
        next_eligible: 5000,
        cached: None,
    };
    let status = [0x00, 0x00, 0x81, 0, 0, 0x81, 0, 0, 0x81];
    let r = m.on_status(5000, &status);
    assert_eq!(r, PollResult::Complete(Err(SCD41Error::NoData)));
    assert_eq!(m.state, AcquisitionState::ReadData);
    assert_eq!(m.next_eligible, 6000);
}

#[test]
fn measurement_crc_failure_leaves_machine_unchanged() {
    let mut m = SCD41Core {
        state: AcquisitionState::ReadData,
        next_eligible: 5000,
        cached: None,
    };
    let mut bad = MEASUREMENT;
    bad[2] ^= 0xFF;
    assert_eq!(m.on_measurement(6000, &bad), Err(SCD41Error::CrcMismatch));
    assert_eq!(m.state, AcquisitionState::ReadData);
    assert_eq!(m.next_eligible, 5000);
    assert_eq!(m.cached, None);
}

#[test]
fn eligibility_time_saturates_at_end_of_time() {
    let mut m = SCD41Core::new();
    m.poll(u64::MAX - 10);
    assert_eq!(m.state, AcquisitionState::StopMeasurement);
    assert_eq!(m.next_eligible, u64::MAX);
}

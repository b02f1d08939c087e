//! Driver core of the pressure/humidity/temperature device: the register
//! map, the decisions of the multi-step setup sequence, and the decoding of
//! a raw burst sample into a compensated reading.
//!
//! Bus transactions and settle delays belong to the caller. The core checks
//! the chip identity, judges the calibration-busy poll, fixes the order of
//! the configuration register writes, stores the parsed coefficient table,
//! and turns raw bytes into fixed-point physical quantities.

use vstd::prelude::*;

use crate::BME280Error;
use crate::calibration::CalibrationRegisters;
use crate::calibration::spec_parse;
use crate::calibration::T_FINE_BOUND;
use crate::configuration::SamplingConfiguration;
use crate::configuration::spec_config_register;
use crate::configuration::spec_ctrl_hum_register;
use crate::configuration::spec_ctrl_meas_register;

verus! {

/// Chip-identity register; it reads back `BME280_CHIP_ID`.
pub const BME280_REGISTER_CHIPID: u8 = 0xD0;

/// The value the chip-identity register must read back.
pub const BME280_CHIP_ID: u8 = 0x60;

/// Soft-reset register; it accepts `BME280_SOFTRESET_COMMAND`.
pub const BME280_REGISTER_SOFTRESET: u8 = 0xE0;

/// The command byte that triggers a soft reset.
pub const BME280_SOFTRESET_COMMAND: u8 = 0x86;

/// Status register; bit 3 is the calibration-busy flag.
pub const BME280_REGISTER_STATUS: u8 = 0xF3;

/// Humidity-control register.
pub const BME280_REGISTER_CONTROLHUMID: u8 = 0xF2;

/// Measurement-control register.
pub const BME280_REGISTER_CONTROL: u8 = 0xF4;

/// Configuration register (standby duration and filter).
pub const BME280_REGISTER_CONFIG: u8 = 0xF5;

/// First byte of the burst data read.
pub const BME280_REGISTER_DATA_START: u8 = 0xF7;

/// Length of the burst data read.
pub const BME280_REGISTER_DATA_LENGTH: usize = 8;

/// Base address of the first calibration block.
pub const BME280_REGISTER_DIG_FIRST_START: u8 = 0x88;

/// Length of the first calibration block.
pub const BME280_REGISTER_DIG_FIRST_LENGTH: usize = 26;

/// Base address of the second calibration block.
pub const BME280_REGISTER_DIG_SECOND_START: u8 = 0xE1;

/// Length of the second calibration block.
pub const BME280_REGISTER_DIG_SECOND_LENGTH: usize = 7;

/// One compensated reading, in the fixed-point scales of the compensation
/// formulas: hundredths of a degree Celsius, 2^8-scaled pascals, and
/// 2^10-scaled percent relative humidity.
#[derive(Debug, Clone, Copy, PartialEq, Eq)]
pub struct BME280Reading {
    pub temperature_centi: i64,
    pub pressure_q8: u32,
    pub humidity_q10: u32,
}

/// The raw 20-bit pressure count of an 8-byte burst sample.
pub open spec fn spec_adc_p(d: Seq<u8>) -> u32
    recommends
        d.len() == 8,
{
    (d[0] * 4096 + d[1] * 16 + d[2] / 16) as u32
}

/// The raw 20-bit temperature count of an 8-byte burst sample.
pub open spec fn spec_adc_t(d: Seq<u8>) -> u32
    recommends
        d.len() == 8,
{
    (d[3] * 4096 + d[4] * 16 + d[5] / 16) as u32
}

/// The raw 16-bit humidity count of an 8-byte burst sample.
pub open spec fn spec_adc_h(d: Seq<u8>) -> u16
    recommends
        d.len() == 8,
{
    (d[6] * 256 + d[7]) as u16
}

/// Unpacks an 8-byte burst sample into the raw pressure, temperature and
/// humidity counts: two 20-bit values of three bytes each (most significant
/// byte, least significant byte, and the top nibble of an extra byte), and
/// one 16-bit big-endian value.
pub fn unpack_sample(data: &[u8]) -> (r: (u32, u32, u16))
    requires
        data@.len() == 8,
    ensures
        r.0 == spec_adc_p(data@),
        r.1 == spec_adc_t(data@),
        r.2 == spec_adc_h(data@),
        r.0 < 0x100000,
        r.1 < 0x100000,
{
    let adc_p: u32 = (data[0] as u32) * 4096 + (data[1] as u32) * 16 + (data[2] as u32) / 16;
    let adc_t: u32 = (data[3] as u32) * 4096 + (data[4] as u32) * 16 + (data[5] as u32) / 16;
    let adc_h: u16 = (data[6] as u16) * 256 + (data[7] as u16);
    (adc_p, adc_t, adc_h)
}

/// The compensated reading a calibration table yields for an 8-byte burst
/// sample: temperature first (its `t_fine` intermediate feeds the other
/// two), then pressure and humidity.
pub open spec fn spec_reading(cal: CalibrationRegisters, d: Seq<u8>) -> BME280Reading
    recommends
        d.len() == 8,
{
    let t_fine = cal.spec_t_fine(spec_adc_t(d));
    BME280Reading {
        temperature_centi: CalibrationRegisters::spec_temperature_centi(t_fine),
        pressure_q8: cal.spec_pressure(spec_adc_p(d), t_fine),
        humidity_q10: cal.spec_humidity(spec_adc_h(d), t_fine),
    }
}

/// What one judgement of the calibration-busy poll decides: keep waiting a
/// settle delay, proceed to the coefficient read, or give up.
#[derive(Debug, Clone, Copy, PartialEq, Eq)]
pub enum CalibrationPoll {
    /// The overall bound elapsed before the flag cleared.
    TimedOut,
    /// The device still reports calibration busy: wait and poll again.
    Wait,
    /// Proceed to the coefficient read.
    Proceed,
}

/// Judges one round of the calibration-busy poll at time `now` against the
/// poll's deadline. `status` is the status register if its read succeeded;
/// a failed read deliberately counts as "not busy" and setup proceeds —
/// the documented lenient policy, not a retry.
pub fn calibration_poll_step(deadline: u64, now: u64, status: Option<u8>) -> (r: CalibrationPoll)
    ensures
        now >= deadline ==> r == CalibrationPoll::TimedOut,
        now < deadline && status is Some && status->0 & 0x08 != 0 ==> r == CalibrationPoll::Wait,
        now < deadline && status is Some && status->0 & 0x08 == 0 ==> r
            == CalibrationPoll::Proceed,
        now < deadline && status is None ==> r == CalibrationPoll::Proceed,
{
    if now >= deadline {
        CalibrationPoll::TimedOut
    } else {
        match status {
            Some(s) => {
                if is_reading_calibration(s) {
                    CalibrationPoll::Wait
                } else {
                    CalibrationPoll::Proceed
                }
            },
            None => CalibrationPoll::Proceed,
        }
    }
}

/// Whether a status register value reports the calibration copy still in
/// progress (bit 3).
pub fn is_reading_calibration(status: u8) -> (r: bool)
    ensures
        r == (status & 0x08 != 0),
{
    status & 0x08 != 0
}

/// The register writes that apply a sampling configuration, in the exact
/// order the device demands: force Sleep mode, write humidity control,
/// write config, write measurement control. The device only latches a new
/// humidity oversampling setting while not measuring and before the
/// measurement-control write.
pub fn setup_register_writes(cfg: &SamplingConfiguration) -> (r: Vec<(u8, u8)>)
    ensures
        r@.len() == 4,
        r@[0] == (BME280_REGISTER_CONTROL, 0u8),
        r@[1] == (BME280_REGISTER_CONTROLHUMID, spec_ctrl_hum_register(*cfg)),
        r@[2] == (BME280_REGISTER_CONFIG, spec_config_register(*cfg)),
        r@[3] == (BME280_REGISTER_CONTROL, spec_ctrl_meas_register(*cfg)),
{
    let (config, ctrl_meas, ctrl_hum) = cfg.to_low_level_configuration();
    let mut writes: Vec<(u8, u8)> = Vec::new();
    writes.push((BME280_REGISTER_CONTROL, 0u8));
    writes.push((BME280_REGISTER_CONTROLHUMID, ctrl_hum));
    writes.push((BME280_REGISTER_CONFIG, config));
    writes.push((BME280_REGISTER_CONTROL, ctrl_meas));
    writes
}

/// Checks the chip-identity register value: anything but the expected
/// constant means the wrong device answers on the bus.
pub fn check_chip_id(id: u8) -> (r: Result<(), BME280Error>)
    ensures
        id == BME280_CHIP_ID <==> r is Ok,
        id != BME280_CHIP_ID ==> r == Err::<(), BME280Error>(BME280Error::InvalidChipId(id)),
{
    if id == BME280_CHIP_ID {
        Ok(())
    } else {
        Err(BME280Error::InvalidChipId(id))
    }
}

/// The driver core: the calibration table once setup has stored it. A
/// reading can only be decoded after that; before, decoding fails with
/// `NotCalibrated` rather than computing from garbage.
pub struct BME280Core {
    pub calibration: Option<CalibrationRegisters>,
}

impl BME280Core {
    /// A fresh core: no calibration table yet, every decode fails with
    /// `NotCalibrated`.
    pub fn new() -> (r: BME280Core)
        ensures
            r.calibration is None,
    {
        BME280Core { calibration: None }
    }

    /// Stores the coefficient table parsed from the two calibration burst
    /// blocks, concatenated in order.
    pub fn store_calibration(&mut self, first: &[u8], second: &[u8])
        requires
            first@.len() == 26,
            second@.len() == 7,
        ensures
            final(self).calibration == Some(spec_parse(first@ + second@)),
    {
        let mut buf: Vec<u8> = Vec::new();
        let mut i: usize = 0;
        while i < first.len()
            invariant
                first@.len() == 26,
                0 <= i <= 26,
                buf@ =~= first@.take(i as int),
            decreases 26 - i,
        {
            buf.push(first[i]);
            i = i + 1;
        }
        let mut j: usize = 0;
        while j < second.len()
            invariant
                first@.len() == 26,
                second@.len() == 7,
                0 <= j <= 7,
                buf@ =~= first@ + second@.take(j as int),
            decreases 7 - j,
        {
            buf.push(second[j]);
            j = j + 1;
        }
        proof {
            assert(buf@ =~= first@ + second@);
        }
        self.calibration = Some(CalibrationRegisters::parse(buf.as_slice()));
    }

    /// Decodes an 8-byte burst sample into a compensated reading. Before
    /// setup has stored the calibration table this always fails with
    /// `NotCalibrated`; afterwards it applies temperature compensation
    /// first, then pressure and humidity through the shared `t_fine`
    /// intermediate.
    pub fn decode(&self, data: &[u8]) -> (r: Result<BME280Reading, BME280Error>)
        requires
            data@.len() == 8,
        ensures
            self.calibration is None <==> r == Err::<BME280Reading, BME280Error>(
                BME280Error::NotCalibrated,
            ),
            self.calibration is Some ==> r == Ok::<BME280Reading, BME280Error>(
                spec_reading(self.calibration->0, data@),
            ),
    {
        let (adc_p, adc_t, adc_h) = unpack_sample(data);
        match &self.calibration {
            Some(cal) => {
                let t_fine = cal.compensate_temperature(adc_t);
                let temperature_centi = CalibrationRegisters::temperature_centi(t_fine);
                let pressure_q8 = cal.compensate_pressure(adc_p, t_fine);
                let humidity_q10 = cal.compensate_humidity(adc_h, t_fine);
                Ok(BME280Reading { temperature_centi, pressure_q8, humidity_q10 })
            },
            None => Err(BME280Error::NotCalibrated),
        }
    }
}

} // verus!

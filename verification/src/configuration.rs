//! Sampling configuration of the pressure/humidity/temperature device: a
//! builder-style value naming per-axis oversampling, the operating mode, the
//! IIR filter coefficient and the standby duration, and its translation into
//! the device's three configuration register values.

use vstd::prelude::*;

verus! {

/// Oversampling factor of one measurement axis.
#[derive(Debug, Clone, Copy, PartialEq, Eq)]
pub enum Oversampling {
    Skip,
    X1,
    X2,
    X4,
    X8,
    X16,
}

/// Global operating mode.
#[derive(Debug, Clone, Copy, PartialEq, Eq)]
pub enum SensorMode {
    Sleep,
    Forced,
    Normal,
}

/// IIR filter coefficient.
#[derive(Debug, Clone, Copy, PartialEq, Eq)]
pub enum Filter {
    Off,
    X2,
    X4,
    X8,
    X16,
}

/// Standby duration between measurements in Normal mode.
#[derive(Debug, Clone, Copy, PartialEq, Eq)]
pub enum StandbyDuration {
    Millis0_5,
    Millis62_5,
    Millis125,
    Millis250,
    Millis500,
    Millis1000,
    Millis10,
    Millis20,
}

/// The 3-bit register encoding of an oversampling factor.
pub open spec fn spec_oversampling_bits(o: Oversampling) -> u8 {
    match o {
        Oversampling::Skip => 0,
        Oversampling::X1 => 1,
        Oversampling::X2 => 2,
        Oversampling::X4 => 3,
        Oversampling::X8 => 4,
        Oversampling::X16 => 5,
    }
}

/// The 2-bit register encoding of an operating mode.
pub open spec fn spec_mode_bits(m: SensorMode) -> u8 {
    match m {
        SensorMode::Sleep => 0,
        SensorMode::Forced => 1,
        SensorMode::Normal => 3,
    }
}

/// The 3-bit register encoding of a filter coefficient.
pub open spec fn spec_filter_bits(f: Filter) -> u8 {
    match f {
        Filter::Off => 0,
        Filter::X2 => 1,
        Filter::X4 => 2,
        Filter::X8 => 3,
        Filter::X16 => 4,
    }
}

/// The 3-bit register encoding of a standby duration.
pub open spec fn spec_standby_bits(s: StandbyDuration) -> u8 {
    match s {
        StandbyDuration::Millis0_5 => 0,
        StandbyDuration::Millis62_5 => 1,
        StandbyDuration::Millis125 => 2,
        StandbyDuration::Millis250 => 3,
        StandbyDuration::Millis500 => 4,
        StandbyDuration::Millis1000 => 5,
        StandbyDuration::Millis10 => 6,
        StandbyDuration::Millis20 => 7,
    }
}

/// The sampling configuration of the device, one field per register knob.
#[derive(Debug, Clone, Copy, PartialEq, Eq)]
pub struct SamplingConfiguration {
    pub temperature_oversampling: Oversampling,
    pub pressure_oversampling: Oversampling,
    pub humidity_oversampling: Oversampling,
    pub sensor_mode: SensorMode,
    pub filter: Filter,
    pub standby_duration: StandbyDuration,
}

/// The `config` register value: standby bits, then filter bits.
pub open spec fn spec_config_register(c: SamplingConfiguration) -> u8 {
    (spec_standby_bits(c.standby_duration) * 32 + spec_filter_bits(c.filter) * 4) as u8
}

/// The measurement-control register value: temperature bits, pressure bits,
/// then mode bits.
pub open spec fn spec_ctrl_meas_register(c: SamplingConfiguration) -> u8 {
    (spec_oversampling_bits(c.temperature_oversampling) * 32 + spec_oversampling_bits(
        c.pressure_oversampling,
    ) * 4 + spec_mode_bits(c.sensor_mode)) as u8
}

/// The humidity-control register value: the humidity oversampling bits.
pub open spec fn spec_ctrl_hum_register(c: SamplingConfiguration) -> u8 {
    spec_oversampling_bits(c.humidity_oversampling)
}

impl Default for SamplingConfiguration {
    /// Single-shot oversampling on every axis, no filter, shortest standby,
    /// device left asleep until a mode is chosen.
    fn default() -> (r: Self)
        ensures
            r.temperature_oversampling == Oversampling::X1,
            r.pressure_oversampling == Oversampling::X1,
            r.humidity_oversampling == Oversampling::X1,
            r.sensor_mode == SensorMode::Sleep,
            r.filter == Filter::Off,
            r.standby_duration == StandbyDuration::Millis0_5,
    {
        SamplingConfiguration {
            temperature_oversampling: Oversampling::X1,
            pressure_oversampling: Oversampling::X1,
            humidity_oversampling: Oversampling::X1,
            sensor_mode: SensorMode::Sleep,
            filter: Filter::Off,
            standby_duration: StandbyDuration::Millis0_5,
        }
    }
}

impl SamplingConfiguration {
    /// The configuration with the temperature oversampling replaced.
    pub fn with_temperature_oversampling(self, o: Oversampling) -> (r: Self)
        ensures
            r == (SamplingConfiguration { temperature_oversampling: o, ..self }),
    {
        SamplingConfiguration { temperature_oversampling: o, ..self }
    }

    /// The configuration with the pressure oversampling replaced.
    pub fn with_pressure_oversampling(self, o: Oversampling) -> (r: Self)
        ensures
            r == (SamplingConfiguration { pressure_oversampling: o, ..self }),
    {
        SamplingConfiguration { pressure_oversampling: o, ..self }
    }

    /// The configuration with the humidity oversampling replaced.
    pub fn with_humidity_oversampling(self, o: Oversampling) -> (r: Self)
        ensures
            r == (SamplingConfiguration { humidity_oversampling: o, ..self }),
    {
        SamplingConfiguration { humidity_oversampling: o, ..self }
    }

    /// The configuration with the operating mode replaced.
    pub fn with_sensor_mode(self, m: SensorMode) -> (r: Self)
        ensures
            r == (SamplingConfiguration { sensor_mode: m, ..self }),
    {
        SamplingConfiguration { sensor_mode: m, ..self }
    }

    /// The configuration with the filter coefficient replaced.
    pub fn with_filter(self, f: Filter) -> (r: Self)
        ensures
            r == (SamplingConfiguration { filter: f, ..self }),
    {
        SamplingConfiguration { filter: f, ..self }
    }

    /// The configuration with the standby duration replaced.
    pub fn with_standby_duration(self, s: StandbyDuration) -> (r: Self)
        ensures
            r == (SamplingConfiguration { standby_duration: s, ..self }),
    {
        SamplingConfiguration { standby_duration: s, ..self }
    }

    /// The three register values this configuration translates to:
    /// `config`, measurement control, humidity control.
    pub fn to_low_level_configuration(&self) -> (r: (u8, u8, u8))
        ensures
            r.0 == spec_config_register(*self),
            r.1 == spec_ctrl_meas_register(*self),
            r.2 == spec_ctrl_hum_register(*self),
    {
        let standby = standby_bits(self.standby_duration);
        let filter = filter_bits(self.filter);
        let osrs_t = oversampling_bits(self.temperature_oversampling);
        let osrs_p = oversampling_bits(self.pressure_oversampling);
        let osrs_h = oversampling_bits(self.humidity_oversampling);
        let mode = mode_bits(self.sensor_mode);
        (standby * 32 + filter * 4, osrs_t * 32 + osrs_p * 4 + mode, osrs_h)
    }
}

/// The 3-bit register encoding of an oversampling factor.
pub fn oversampling_bits(o: Oversampling) -> (r: u8)
    ensures
        r == spec_oversampling_bits(o),
{
    match o {
        Oversampling::Skip => 0,
        Oversampling::X1 => 1,
        Oversampling::X2 => 2,
        Oversampling::X4 => 3,
        Oversampling::X8 => 4,
        Oversampling::X16 => 5,
    }
}

/// The 2-bit register encoding of an operating mode.
pub fn mode_bits(m: SensorMode) -> (r: u8)
    ensures
        r == spec_mode_bits(m),
{
    match m {
        SensorMode::Sleep => 0,
        SensorMode::Forced => 1,
        SensorMode::Normal => 3,
    }
}

/// The 3-bit register encoding of a filter coefficient.
pub fn filter_bits(f: Filter) -> (r: u8)
    ensures
        r == spec_filter_bits(f),
{
    match f {
        Filter::Off => 0,
        Filter::X2 => 1,
        Filter::X4 => 2,
        Filter::X8 => 3,
        Filter::X16 => 4,
    }
}

/// The 3-bit register encoding of a standby duration.
pub fn standby_bits(s: StandbyDuration) -> (r: u8)
    ensures
        r == spec_standby_bits(s),
{
    match s {
        StandbyDuration::Millis0_5 => 0,
        StandbyDuration::Millis62_5 => 1,
        StandbyDuration::Millis125 => 2,
        StandbyDuration::Millis250 => 3,
        StandbyDuration::Millis500 => 4,
        StandbyDuration::Millis1000 => 5,
        StandbyDuration::Millis10 => 6,
        StandbyDuration::Millis20 => 7,
    }
}

} // verus!

//! Drivers for two environmental sensors that speak a register-addressed
//! two-wire bus: a pressure/humidity/temperature device and a
//! CO2/humidity/temperature device.
//!
//! The verified core holds the calibration store with its fixed-point
//! compensation formulas, the non-blocking acquisition state machine with its
//! result cache and rate limiter, and the CRC-8 integrity check. Bus transport
//! and timers are left to the caller: the core consumes plain bytes and
//! monotonic millisecond timestamps and hands back plain values.

use vstd::prelude::*;

pub mod bme280;
pub mod calibration;
pub mod configuration;
pub mod crc;
pub mod scd41;

verus! {

/// Errors of the CO2 driver.
#[derive(Debug, Clone, Copy, PartialEq, Eq)]
pub enum SCD41Error {
    /// Transient: the machine is still warming up or rate-limited; retry later.
    NoData,
    /// A bus transaction failed; the same step is retried on the next call.
    I2CError,
    /// A bounded wait was exceeded.
    Timeout,
    /// A checksum byte did not match its data word.
    CrcMismatch,
}

/// Errors of the pressure/humidity/temperature driver.
#[derive(Debug, Clone, Copy, PartialEq, Eq)]
pub enum BME280Error {
    /// No reading is available yet.
    NoData,
    /// A bus transaction failed.
    I2CError,
    /// The chip-identity register held the given value instead of the
    /// expected constant; wrong device on the bus.
    InvalidChipId(u8),
    /// The calibration-busy poll exceeded its overall bound during setup.
    Timeout,
    /// A read was attempted before setup stored the calibration block.
    NotCalibrated,
}

} // verus!

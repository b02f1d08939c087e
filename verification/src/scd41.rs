//! Acquisition state machine of the CO2/humidity/temperature device.
//!
//! A single non-blocking poll both drives the linear initialization sequence
//! and performs ongoing measurement polling. The machine never waits: it
//! either serves the cached reading (rate limiter), or names exactly which bus
//! transaction the caller must perform next. The caller reports the outcome
//! of that transaction back, which advances the state and re-arms the
//! eligibility time. State, eligibility time and cache are plain data, so
//! the machine is resumable and testable with an injected time source.

use vstd::prelude::*;

use crate::SCD41Error;
use crate::crc::spec_crc8;
use crate::crc::crc8_word;

verus! {

/// The step the machine is at. The sequence is linear:
/// `Initial -> StopMeasurement -> Reinit -> StartMeasurement -> ReadData`,
/// and `ReadData` repeats forever.
#[derive(Debug, Clone, Copy, PartialEq, Eq)]
pub enum AcquisitionState {
    Initial,
    StopMeasurement,
    Reinit,
    StartMeasurement,
    ReadData,
}

/// One decoded measurement: the raw 16-bit words of the three data channels.
/// CO2 is a direct ppm count; temperature and humidity are fractions of the
/// 16-bit range per the device's linear formulas.
#[derive(Debug, Clone, Copy, PartialEq, Eq)]
pub struct SCD41Reading {
    pub co2: u16,
    pub raw_temperature: u16,
    pub raw_humidity: u16,
}

/// A command the caller must send on the bus for the machine.
#[derive(Debug, Clone, Copy, PartialEq, Eq)]
pub enum Command {
    StopPeriodic,
    Reinit,
    StartPeriodic,
    DataReadyStatus,
    ReadMeasurement,
}

/// The two bytes of a command word.
pub fn command_bytes(c: Command) -> (r: (u8, u8))
    ensures
        c == Command::StopPeriodic ==> r == (0x3fu8, 0x86u8),
        c == Command::Reinit ==> r == (0x36u8, 0x46u8),
        c == Command::StartPeriodic ==> r == (0x21u8, 0xb1u8),
        c == Command::DataReadyStatus ==> r == (0xe4u8, 0xb8u8),
        c == Command::ReadMeasurement ==> r == (0xecu8, 0x05u8),
{
    match c {
        Command::StopPeriodic => (0x3f, 0x86),
        Command::Reinit => (0x36, 0x46),
        Command::StartPeriodic => (0x21, 0xb1),
        Command::DataReadyStatus => (0xe4, 0xb8),
        Command::ReadMeasurement => (0xec, 0x05),
    }
}

/// The bus transaction a poll asks for: a bare command write, or a command
/// write followed by a 9-byte read.
#[derive(Debug, Clone, Copy, PartialEq, Eq)]
pub enum BusRequest {
    Write(Command),
    WriteRead(Command),
}

/// What one poll yields: either the call is complete (no bus transaction at
/// all), or the caller must perform the given transaction and report back.
#[derive(Debug, Clone, Copy, PartialEq, Eq)]
pub enum PollResult {
    Complete(Result<SCD41Reading, SCD41Error>),
    Request(BusRequest),
}

/// The next eligibility time after a step at `now` with the given settle delay,
/// saturating at the end of time.
pub open spec fn spec_arm(now: u64, delay: u64) -> u64 {
    if now + delay <= u64::MAX {
        (now + delay) as u64
    } else {
        u64::MAX
    }
}

fn arm(now: u64, delay: u64) -> (r: u64)
    ensures
        r == spec_arm(now, delay),
{
    if now <= u64::MAX - delay {
        now + delay
    } else {
        u64::MAX
    }
}

/// The big-endian 16-bit word at offset `o` of a response buffer.
pub open spec fn spec_word(d: Seq<u8>, o: int) -> u16
    recommends
        0 <= o,
        o + 2 <= d.len(),
{
    (d[o] * 256 + d[o + 1]) as u16
}

/// Whether the checksum byte behind the word at offset `o` matches the word.
pub open spec fn spec_word_crc_ok(d: Seq<u8>, o: int) -> bool
    recommends
        0 <= o,
        o + 3 <= d.len(),
{
    spec_crc8(seq![d[o], d[o + 1]]) == d[o + 2]
}

/// What decoding a 9-byte measurement buffer yields: the three raw words if
/// every checksum matches, else the integrity error.
pub open spec fn spec_decode(d: Seq<u8>) -> Result<SCD41Reading, SCD41Error>
    recommends
        d.len() == 9,
{
    if spec_word_crc_ok(d, 0) && spec_word_crc_ok(d, 3) && spec_word_crc_ok(d, 6) {
        Ok(
            SCD41Reading {
                co2: spec_word(d, 0),
                raw_temperature: spec_word(d, 3),
                raw_humidity: spec_word(d, 6),
            },
        )
    } else {
        Err(SCD41Error::CrcMismatch)
    }
}

/// Decodes a 9-byte measurement buffer: three big-endian words, each guarded
/// by its own CRC-8 checksum byte. A checksum mismatch is surfaced as a
/// distinct integrity error rather than silently accepted.
pub fn decode_measurement(data: &[u8]) -> (r: Result<SCD41Reading, SCD41Error>)
    requires
        data@.len() == 9,
    ensures
        r == spec_decode(data@),
{
    let c0 = crc8_word(data[0], data[1]);
    let c1 = crc8_word(data[3], data[4]);
    let c2 = crc8_word(data[6], data[7]);
    if c0 == data[2] && c1 == data[5] && c2 == data[8] {
        let co2: u16 = (data[0] as u16) * 256 + (data[1] as u16);
        let raw_temperature: u16 = (data[3] as u16) * 256 + (data[4] as u16);
        let raw_humidity: u16 = (data[6] as u16) * 256 + (data[7] as u16);
        Ok(SCD41Reading { co2, raw_temperature, raw_humidity })
    } else {
        Err(SCD41Error::CrcMismatch)
    }
}

/// The CO2 driver core: current step, the monotonic millisecond timestamp
/// before which no new bus transaction is attempted, and the last decoded
/// reading.
pub struct SCD41Core {
    pub state: AcquisitionState,
    pub next_eligible: u64,
    pub cached: Option<SCD41Reading>,
}

/// What a call before the eligibility time is served: the cached reading
/// if one exists, else `NoData`.
pub open spec fn spec_cache_result(m: SCD41Core) -> Result<SCD41Reading, SCD41Error> {
    match m.cached {
        Some(v) => Ok(v),
        None => Err(SCD41Error::NoData),
    }
}

/// One poll of the machine at time `now`: the machine afterwards, and what
/// the poll yields. Before the eligibility time nothing happens and the
/// cache is served. The `Initial` state is a pure transition. Every other state asks
/// the caller for its transaction and leaves the machine untouched until the
/// outcome is reported.
pub open spec fn spec_poll(m: SCD41Core, now: u64) -> (SCD41Core, PollResult) {
    if now < m.next_eligible {
        (m, PollResult::Complete(spec_cache_result(m)))
    } else {
        match m.state {
            AcquisitionState::Initial => (
                SCD41Core {
                    state: AcquisitionState::StopMeasurement,
                    next_eligible: spec_arm(now, 1000),
                    cached: m.cached,
                },
                PollResult::Complete(Err(SCD41Error::NoData)),
            ),
            AcquisitionState::StopMeasurement => (
                m,
                PollResult::Request(BusRequest::Write(Command::StopPeriodic)),
            ),
            AcquisitionState::Reinit => (
                m,
                PollResult::Request(BusRequest::Write(Command::Reinit)),
            ),
            AcquisitionState::StartMeasurement => (
                m,
                PollResult::Request(BusRequest::Write(Command::StartPeriodic)),
            ),
            AcquisitionState::ReadData => (
                m,
                PollResult::Request(BusRequest::WriteRead(Command::DataReadyStatus)),
            ),
        }
    }
}

/// The machine after a requested command write went through at time `now`:
/// the warm-up sequence advances one step and the settle delay is armed.
pub open spec fn spec_after_write(m: SCD41Core, now: u64) -> SCD41Core
    recommends
        m.state == AcquisitionState::StopMeasurement || m.state == AcquisitionState::Reinit
            || m.state == AcquisitionState::StartMeasurement,
{
    SCD41Core {
        state: match m.state {
            AcquisitionState::StopMeasurement => AcquisitionState::Reinit,
            AcquisitionState::Reinit => AcquisitionState::StartMeasurement,
            _ => AcquisitionState::ReadData,
        },
        next_eligible: spec_arm(now, 1000),
        cached: m.cached,
    }
}

impl SCD41Core {
    /// A freshly constructed machine: at the first step, immediately
    /// eligible, with nothing cached.
    pub fn new() -> (r: SCD41Core)
        ensures
            r.state == AcquisitionState::Initial,
            r.next_eligible == 0,
            r.cached is None,
    {
        SCD41Core { state: AcquisitionState::Initial, next_eligible: 0, cached: None }
    }

    /// Polls the machine at monotonic millisecond time `now`. Before the
    /// eligibility time this completes at once with the cached reading (or
    /// `NoData`) and performs no transaction; otherwise it either takes the
    /// pure `Initial` transition or asks the caller for one bus transaction.
    pub fn poll(&mut self, now: u64) -> (r: PollResult)
        ensures
            (*final(self), r) == spec_poll(*old(self), now),
    {
        if now < self.next_eligible {
            match self.cached {
                Some(v) => PollResult::Complete(Ok(v)),
                None => PollResult::Complete(Err(SCD41Error::NoData)),
            }
        } else {
            match self.state {
                AcquisitionState::Initial => {
                    self.state = AcquisitionState::StopMeasurement;
                    self.next_eligible = arm(now, 1000);
                    PollResult::Complete(Err(SCD41Error::NoData))
                },
                AcquisitionState::StopMeasurement => PollResult::Request(
                    BusRequest::Write(Command::StopPeriodic),
                ),
                AcquisitionState::Reinit => PollResult::Request(
                    BusRequest::Write(Command::Reinit),
                ),
                AcquisitionState::StartMeasurement => PollResult::Request(
                    BusRequest::Write(Command::StartPeriodic),
                ),
                AcquisitionState::ReadData => PollResult::Request(
                    BusRequest::WriteRead(Command::DataReadyStatus),
                ),
            }
        }
    }

    /// Reports that a requested command write completed at time `now`. The
    /// warm-up sequence advances one step, the settle delay is armed, and
    /// the call yields `NoData`: the caller is still warming up.
    pub fn on_write_done(&mut self, now: u64) -> (r: Result<SCD41Reading, SCD41Error>)
        requires
            old(self).state == AcquisitionState::StopMeasurement || old(self).state
                == AcquisitionState::Reinit || old(self).state
                == AcquisitionState::StartMeasurement,
        ensures
            *final(self) == spec_after_write(*old(self), now),
            r == Err::<SCD41Reading, SCD41Error>(SCD41Error::NoData),
    {
        self.state = match self.state {
            AcquisitionState::StopMeasurement => AcquisitionState::Reinit,
            AcquisitionState::Reinit => AcquisitionState::StartMeasurement,
            _ => AcquisitionState::ReadData,
        };
        self.next_eligible = arm(now, 1000);
        Err(SCD41Error::NoData)
    }

    /// Reports the 9-byte data-ready response read at time `now`. Readiness
    /// is byte 1 of the response. Not ready: the eligibility time is re-armed for
    /// another status poll and the call yields `NoData`. Ready: the machine
    /// is left untouched and the caller must read the measurement.
    pub fn on_status(&mut self, now: u64, data: &[u8]) -> (r: PollResult)
        requires
            old(self).state == AcquisitionState::ReadData,
            data@.len() == 9,
        ensures
            data@[1] == 0 ==> *final(self) == (SCD41Core {
                next_eligible: spec_arm(now, 1000),
                ..*old(self)
            }) && r == PollResult::Complete(Err(SCD41Error::NoData)),
            data@[1] != 0 ==> *final(self) == *old(self) && r == PollResult::Request(
                BusRequest::WriteRead(Command::ReadMeasurement),
            ),
    {
        if data[1] == 0 {
            self.next_eligible = arm(now, 1000);
            PollResult::Complete(Err(SCD41Error::NoData))
        } else {
            PollResult::Request(BusRequest::WriteRead(Command::ReadMeasurement))
        }
    }

    /// Reports the 9-byte measurement response read at time `now`. A clean
    /// decode caches the reading and arms the measurement cadence; a
    /// checksum mismatch leaves the machine exactly as it was, so the next
    /// eligible call retries the identical transactions.
    pub fn on_measurement(&mut self, now: u64, data: &[u8]) -> (r: Result<
        SCD41Reading,
        SCD41Error,
    >)
        requires
            old(self).state == AcquisitionState::ReadData,
            data@.len() == 9,
        ensures
            r == spec_decode(data@),
            r is Ok ==> *final(self) == (SCD41Core {
                next_eligible: spec_arm(now, 5000),
                cached: Some(r->Ok_0),
                ..*old(self)
            }),
            r is Err ==> *final(self) == *old(self),
    {
        match decode_measurement(data) {
            Ok(reading) => {
                self.cached = Some(reading);
                self.next_eligible = arm(now, 5000);
                Ok(reading)
            },
            Err(e) => Err(e),
        }
    }
}

/// From a fresh machine, one eligible call per step walks the warm-up chain
/// `Initial -> StopMeasurement -> Reinit -> StartMeasurement -> ReadData` in
/// that exact order, each call completing with `NoData`, until the machine
/// is polling for data.
pub proof fn lemma_warmup_sequence(t0: u64, t1: u64, t2: u64, t3: u64)
    requires
        t1 >= spec_arm(t0, 1000),
        t2 >= spec_arm(t1, 1000),
        t3 >= spec_arm(t2, 1000),
    ensures
        ({
            let m0 = SCD41Core {
                state: AcquisitionState::Initial,
                next_eligible: 0,
                cached: None,
            };
            let (m1, r1) = spec_poll(m0, t0);
            let (m2, r2) = spec_poll(m1, t1);
            let m2w = spec_after_write(m2, t1);
            let (m3, r3) = spec_poll(m2w, t2);
            let m3w = spec_after_write(m3, t2);
            let (m4, r4) = spec_poll(m3w, t3);
            let m4w = spec_after_write(m4, t3);
            m1.state == AcquisitionState::StopMeasurement && r1 == PollResult::Complete(
                Err::<SCD41Reading, SCD41Error>(SCD41Error::NoData),
            ) && r2 == PollResult::Request(BusRequest::Write(Command::StopPeriodic))
                && m2w.state == AcquisitionState::Reinit && r3 == PollResult::Request(
                BusRequest::Write(Command::Reinit),
            ) && m3w.state == AcquisitionState::StartMeasurement && r4 == PollResult::Request(
                BusRequest::Write(Command::StartPeriodic),
            ) && m4w.state == AcquisitionState::ReadData
        }),
{
}

/// A transport failure during a step is reported to the machine by calling
/// nothing at all, so the machine is unchanged; any later eligible poll then
/// asks for the identical bus transaction, and an eligible poll of a machine
/// past `Initial` never changes the machine by itself.
pub proof fn lemma_failure_retries_same_request(m: SCD41Core, now1: u64, now2: u64)
    requires
        now1 >= m.next_eligible,
        now2 >= m.next_eligible,
        m.state != AcquisitionState::Initial,
    ensures
        spec_poll(m, now1).1 == spec_poll(m, now2).1,
        spec_poll(m, now1).0 == m,
        spec_poll(m, now1).1 is Request,
{
}

/// Before the eligibility time elapses, a poll serves the previously
/// cached value (or `NoData` if none exists yet), asks for no bus
/// transaction, and leaves the machine untouched.
pub proof fn lemma_early_poll_serves_cache(m: SCD41Core, now: u64)
    requires
        now < m.next_eligible,
    ensures
        spec_poll(m, now).0 == m,
        spec_poll(m, now).1 == PollResult::Complete(spec_cache_result(m)),
        m.cached is Some ==> spec_poll(m, now).1 == PollResult::Complete(
            Ok::<SCD41Reading, SCD41Error>(m.cached->0),
        ),
        m.cached is None ==> spec_poll(m, now).1 == PollResult::Complete(
            Err::<SCD41Reading, SCD41Error>(SCD41Error::NoData),
        ),
{
}

} // verus!

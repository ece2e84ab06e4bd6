//! The SHT3x humidity and temperature sensor: its commands, its status
//! register, and the checks on what it sends.
//!
//! Every 16-bit value that the sensor sends is followed by a checksum of
//! its two bytes.

use vstd::prelude::*;
use crc::{Crc, CRC_8_NRSC_5};

verus! {

/// Status bit: the checksum of the last write failed.
pub const CHECKSUM_STATUS: u16 = 0x0001;

/// Status bit: the last command was not processed.
pub const COMMAND_STATUS: u16 = 0x0002;

/// Status bit: a reset was detected since the status register was cleared.
pub const RESET_DETECTED: u16 = 0x0010;

/// Status bit: a temperature tracking alert.
pub const TEMP_TRACKING_ALERT: u16 = 0x0400;

/// Status bit: a relative humidity tracking alert.
pub const RH_TRACKING_ALERT: u16 = 0x0800;

/// Status bit: the heater is on.
pub const HEATER_STATUS: u16 = 0x2000;

/// Status bit: an alert is pending.
pub const ALERT_PENDING: u16 = 0x8000;

/// Milliseconds to wait for a measurement of high repeatability.
pub const HIGH_REPEAT_DELAY: u64 = 15;

/// Milliseconds to wait for a measurement of medium repeatability.
pub const MEDIUM_REPEAT_DELAY: u64 = 6;

/// Milliseconds to wait for a measurement of low repeatability.
pub const LOW_REPEAT_DELAY: u64 = 4;

/// I2C address of the sensor device.
#[derive(Debug, Copy, Clone, PartialEq, Eq, Structural)]
pub enum I2cAddress {
    /// The ADDR pin is connected to logic high.
    AddrLogicHigh,
    /// The ADDR pin is connected to logic low.
    AddrLogicLow,
}

impl I2cAddress {
    /// The address on the bus.
    pub open spec fn spec_address(self) -> u8 {
        match self {
            I2cAddress::AddrLogicHigh => 0x45,
            I2cAddress::AddrLogicLow => 0x44,
        }
    }

    /// Returns the address on the bus.
    pub fn address(self) -> (a: u8)
        ensures
            a == self.spec_address(),
    {
        match self {
            I2cAddress::AddrLogicHigh => 0x45,
            I2cAddress::AddrLogicLow => 0x44,
        }
    }
}

impl Default for I2cAddress {
    fn default() -> (a: I2cAddress)
        ensures
            a == I2cAddress::AddrLogicLow,
    {
        I2cAddress::AddrLogicLow
    }
}

/// Configuration of the sensor driver and device.
#[derive(Debug, Copy, Clone, PartialEq, Eq, Structural)]
pub struct Config {
    /// I2C address to use.
    pub address: I2cAddress,
}

impl Default for Config {
    fn default() -> (c: Config)
        ensures
            c.address == I2cAddress::AddrLogicLow,
    {
        Config { address: I2cAddress::AddrLogicLow }
    }
}

/// Commands that can be sent to the sensor.
#[derive(Debug, Copy, Clone, PartialEq, Eq, Structural)]
pub enum Command {
    /// Soft reset.
    SoftReset,
    /// Read the status register.
    ReadStatusReg,
    /// Clear the alert and reset bits of the status register.
    ClearStatusReg,
    /// Switch the heater on.
    HeaterEnable,
    /// Switch the heater off.
    HeaterDisable,
    /// Fetch the latest data of a periodic measurement.
    FetchData,
    /// Periodic measurement with accelerated response time.
    PeriodicMeasurementWithART,
    /// Stop the periodic measurement.
    Break,
    /// Single shot, clock stretching, high repeatability.
    SingleShotEnabledHigh,
    /// Single shot, clock stretching, medium repeatability.
    SingleShotEnabledMedium,
    /// Single shot, clock stretching, low repeatability.
    SingleShotEnabledLow,
    /// Single shot, no clock stretching, high repeatability.
    SingleShotDisabledHigh,
    /// Single shot, no clock stretching, medium repeatability.
    SingleShotDisabledMedium,
    /// Single shot, no clock stretching, low repeatability.
    SingleShotDisabledLow,
}

impl Command {
    /// The two bytes of the command as one number, first byte high.
    pub open spec fn spec_code(self) -> u16 {
        match self {
            Command::SoftReset => 0x30A2,
            Command::ReadStatusReg => 0xF32D,
            Command::ClearStatusReg => 0x3041,
            Command::HeaterEnable => 0x306D,
            Command::HeaterDisable => 0x3066,
            Command::FetchData => 0xE000,
            Command::PeriodicMeasurementWithART => 0x2B32,
            Command::Break => 0x3093,
            Command::SingleShotEnabledHigh => 0x2C06,
            Command::SingleShotEnabledMedium => 0x2C0D,
            Command::SingleShotEnabledLow => 0x2C10,
            Command::SingleShotDisabledHigh => 0x2400,
            Command::SingleShotDisabledMedium => 0x240B,
            Command::SingleShotDisabledLow => 0x2416,
        }
    }

    /// Returns the two bytes of the command as one number, first byte high.
    pub fn code(self) -> (c: u16)
        ensures
            c == self.spec_code(),
    {
        match self {
            Command::SoftReset => 0x30A2,
            Command::ReadStatusReg => 0xF32D,
            Command::ClearStatusReg => 0x3041,
            Command::HeaterEnable => 0x306D,
            Command::HeaterDisable => 0x3066,
            Command::FetchData => 0xE000,
            Command::PeriodicMeasurementWithART => 0x2B32,
            Command::Break => 0x3093,
            Command::SingleShotEnabledHigh => 0x2C06,
            Command::SingleShotEnabledMedium => 0x2C0D,
            Command::SingleShotEnabledLow => 0x2C10,
            Command::SingleShotDisabledHigh => 0x2400,
            Command::SingleShotDisabledMedium => 0x240B,
            Command::SingleShotDisabledLow => 0x2416,
        }
    }

    /// Returns the two bytes that are sent for the command, in order.
    pub fn to_be_bytes(self) -> (b: [u8; 2])
        ensures
            b[0] == self.spec_code() / 256,
            b[1] == self.spec_code() % 256,
    {
        let c = self.code();
        [(c / 256) as u8, (c % 256) as u8]
    }
}

/// How far a sample may be from the true value.
#[derive(Debug, Copy, Clone, PartialEq, Eq, Structural)]
pub enum SampleMetadata {
    /// Nothing is known.
    Unknown,
    /// The true value lies within `deviation` of the sample plus `bias`,
    /// both in units of ten to the power of `scaling`.
    SymmetricalError { deviation: u16, bias: i16, scaling: i8 },
}

/// The accuracy of a temperature in hundredths of a degree Celsius: 0.4
/// degrees strictly between -40 and +90 degrees, 0.75 degrees elsewhere.
pub open spec fn spec_t_accuracy(temp: i32) -> SampleMetadata {
    if -4000 < temp && temp < 9000 {
        SampleMetadata::SymmetricalError { deviation: 40, bias: 0, scaling: -2i8 }
    } else {
        SampleMetadata::SymmetricalError { deviation: 75, bias: 0, scaling: -2i8 }
    }
}

/// The accuracy of a relative humidity in hundredths of a percent: 2.5
/// percent below 90 percent, 3.5 percent from there on.
pub open spec fn spec_h_accuracy(humi: i32) -> SampleMetadata {
    if humi < 9000 {
        SampleMetadata::SymmetricalError { deviation: 250, bias: 0, scaling: -2i8 }
    } else {
        SampleMetadata::SymmetricalError { deviation: 35, bias: 0, scaling: -1i8 }
    }
}

/// Returns the accuracy of the temperature `temp`, given in hundredths of a
/// degree Celsius.
pub fn t_accuracy(temp: i32) -> (m: SampleMetadata)
    ensures
        m == spec_t_accuracy(temp),
{
    if -4000 < temp && temp < 9000 {
        return SampleMetadata::SymmetricalError { deviation: 40, bias: 0, scaling: -2 };
    }
    SampleMetadata::SymmetricalError { deviation: 75, bias: 0, scaling: -2 }
}

/// Returns the accuracy of the relative humidity `humi`, given in
/// hundredths of a percent.
pub fn h_accuracy(humi: i32) -> (m: SampleMetadata)
    ensures
        m == spec_h_accuracy(humi),
{
    if humi < 9000 {
        return SampleMetadata::SymmetricalError { deviation: 250, bias: 0, scaling: -2 };
    }
    SampleMetadata::SymmetricalError { deviation: 35, bias: 0, scaling: -1 }
}

/// The CRC-8/NRSC-5 checksum of `data`: polynomial 0x31, initial value
/// 0xff, nothing reflected, no final xor.
pub uninterp spec fn crc8_nrsc_5(data: Seq<u8>) -> u8;

/// Calculates the checksum of a two-byte value.
///
/// Calls `Crc::<u8>::new`, `Crc::digest`, `Digest::update` and
/// `Digest::finalize` of the crate `crc` with the algorithm `CRC_8_NRSC_5`.
/// The contract gives the result its name and claims nothing else of it.
#[verifier::external_body]
pub(crate) fn calculate_crc(data: &[u8; 2]) -> (crc: u8)
    ensures
        crc == crc8_nrsc_5(data@),
{
    let crc = Crc::<u8>::new(&CRC_8_NRSC_5);
    let mut digest = crc.digest();
    digest.update(data);
    digest.finalize()
}

/// Whether the checksum `computed` of a value is the checksum `expected`
/// that came with it.
pub fn crc_matches(computed: u8, expected: u8) -> (ok: bool)
    ensures
        ok <==> computed == expected,
{
    computed == expected
}

/// Checks that `data` leads to the checksum `expected_crc`.
pub fn check_crc(data: &[u8; 2], expected_crc: u8) -> (ok: bool)
    ensures
        ok <==> crc8_nrsc_5(data@) == expected_crc,
{
    crc_matches(calculate_crc(data), expected_crc)
}

/// The number that the bytes `hi` and `lo` spell, `hi` first.
pub open spec fn be16(hi: u8, lo: u8) -> u16 {
    (hi * 256 + lo) as u16
}

/// Returns the number that the bytes `hi` and `lo` spell, `hi` first.
pub fn u16_from_be(hi: u8, lo: u8) -> (v: u16)
    ensures
        v == be16(hi, lo),
{
    (hi as u16) * 256 + (lo as u16)
}

/// Whether a status register shows the heater as on.
pub fn heater_is_on(reg: u16) -> (on: bool)
    ensures
        on <==> reg & HEATER_STATUS != 0,
{
    reg & HEATER_STATUS != 0
}

/// What a word that came with checksum `crc` is worth when its checksum
/// was computed as `computed`: the word if the two agree.
pub fn checked_word(hi: u8, lo: u8, crc: u8, computed: u8) -> (r: Result<u16, ()>)
    ensures
        computed == crc ==> r == Ok::<u16, ()>(be16(hi, lo)),
        computed != crc ==> r.is_err(),
{
    if !crc_matches(computed, crc) {
        return Err(());
    }
    Ok(u16_from_be(hi, lo))
}

/// Reads the status register out of the three bytes that the sensor sent:
/// the register, first byte high, and its checksum. Fails if the checksum
/// is wrong.
pub fn read_status(buf: &[u8; 3]) -> (r: Result<u16, ()>)
    ensures
        crc8_nrsc_5(seq![buf[0], buf[1]]) == buf[2] ==> r == Ok::<u16, ()>(be16(buf[0], buf[1])),
        crc8_nrsc_5(seq![buf[0], buf[1]]) != buf[2] ==> r.is_err(),
{
    let reg_buf = [buf[0], buf[1]];
    proof {
        assert(reg_buf@ =~= seq![buf[0], buf[1]]);
    }
    checked_word(buf[0], buf[1], buf[2], calculate_crc(&reg_buf))
}

/// Checks, after the heater was switched, that the status register read
/// back shows it as `want_on`. Fails if the checksum is wrong or the heater
/// is in the other state.
pub fn check_heater(buf: &[u8; 3], want_on: bool) -> (r: Result<(), ()>)
    ensures
        r.is_ok() <==> (crc8_nrsc_5(seq![buf[0], buf[1]]) == buf[2] && ((be16(buf[0], buf[1])
            & HEATER_STATUS != 0) == want_on)),
{
    match read_status(buf) {
        Ok(reg) => {
            if heater_is_on(reg) == want_on {
                Ok(())
            } else {
                Err(())
            }
        },
        Err(e) => Err(e),
    }
}

/// Returns the raw temperature and the raw humidity out of the six bytes of
/// a measurement: each value, first byte high, is followed by its
/// checksum. Fails if either checksum is wrong.
pub fn read_measurement(buf: &[u8; 6]) -> (r: Result<(u16, u16), ()>)
    ensures
        r.is_ok() <==> (crc8_nrsc_5(seq![buf[0], buf[1]]) == buf[2] && crc8_nrsc_5(
            seq![buf[3], buf[4]],
        ) == buf[5]),
        r matches Ok(v) ==> v == (be16(buf[0], buf[1]), be16(buf[3], buf[4])),
{
    let temp_buf = [buf[0], buf[1]];
    let humi_buf = [buf[3], buf[4]];
    proof {
        assert(temp_buf@ =~= seq![buf[0], buf[1]]);
        assert(humi_buf@ =~= seq![buf[3], buf[4]]);
    }
    let temp = match checked_word(buf[0], buf[1], buf[2], calculate_crc(&temp_buf)) {
        Ok(v) => v,
        Err(e) => {
            return Err(e);
        },
    };
    let humi = match checked_word(buf[3], buf[4], buf[5], calculate_crc(&humi_buf)) {
        Ok(v) => v,
        Err(e) => {
            return Err(e);
        },
    };
    Ok((temp, humi))
}

} // verus!

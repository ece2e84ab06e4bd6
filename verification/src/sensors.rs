//! What the sensor drivers share: the states of a driver, the rules by
//! which measurements are triggered and waited for, and the decoding of
//! the registers that the devices send.

use vstd::prelude::*;

verus! {

/// The state of a sensor driver.
#[derive(Debug, Copy, Clone, PartialEq, Eq, Structural)]
pub enum State {
    /// The driver was not initialized yet.
    Uninitialized,
    /// The device is switched off by software.
    Disabled,
    /// The device is ready to measure.
    Enabled,
    /// A measurement was triggered and is not collected yet.
    Measuring,
    /// The device sleeps.
    Sleeping,
}

/// The mode that a driver is asked to go to.
#[derive(Debug, Copy, Clone, PartialEq, Eq, Structural)]
pub enum Mode {
    Disabled,
    Enabled,
    Sleeping,
}

/// Why a measurement could not be triggered.
#[derive(Debug, Copy, Clone, PartialEq, Eq, Structural)]
pub enum TriggerMeasurementError {
    /// The driver is not enabled.
    NonEnabled,
}

/// Why no reading can be had.
#[derive(Debug, Copy, Clone, PartialEq, Eq, Structural)]
pub enum ReadingError {
    /// The driver is not enabled.
    NonEnabled,
    /// The device could not be reached, or what it sent is damaged.
    SensorAccess,
    /// No measurement was triggered.
    NotMeasuring,
}

/// Why the mode could not be set.
#[derive(Debug, Copy, Clone, PartialEq, Eq, Structural)]
pub enum SetModeError {
    /// The driver was not initialized yet.
    Uninitialized,
}

/// How far a sample may be from the true value.
#[derive(Debug, Copy, Clone, PartialEq, Eq, Structural)]
pub enum Accuracy {
    /// Nothing is known.
    Unknown,
    /// The true value lies within `deviation` of the sample plus `bias`,
    /// both in units of ten to the power of `scaling`.
    SymmetricalError { deviation: u16, bias: i16, scaling: i8 },
}

/// The state after the mode `mode` was asked for in state `state`: a driver
/// that was not initialized stays so.
pub open spec fn state_for_mode(state: State, mode: Mode) -> State {
    if state == State::Uninitialized {
        State::Uninitialized
    } else {
        match mode {
            Mode::Disabled => State::Disabled,
            Mode::Enabled => State::Enabled,
            Mode::Sleeping => State::Sleeping,
        }
    }
}

/// Sets the mode of a driver. Returns the new state; fails, and changes
/// nothing, if the driver was not initialized yet.
pub fn set_mode(state: &mut State, mode: Mode) -> (r: Result<State, SetModeError>)
    ensures
        *final(state) == state_for_mode(*old(state), mode),
        *old(state) == State::Uninitialized ==> r == Err::<State, SetModeError>(
            SetModeError::Uninitialized,
        ),
        *old(state) != State::Uninitialized ==> r == Ok::<State, SetModeError>(*final(state)),
{
    if *state == State::Uninitialized {
        return Err(SetModeError::Uninitialized);
    }
    let new_state = match mode {
        Mode::Disabled => State::Disabled,
        Mode::Enabled => State::Enabled,
        Mode::Sleeping => State::Sleeping,
    };
    *state = new_state;
    Ok(new_state)
}

/// Triggers a measurement on a driver that answers only when it is
/// enabled. The state is left as it is.
pub fn trigger_when_enabled(state: State) -> (r: Result<(), TriggerMeasurementError>)
    ensures
        r.is_ok() <==> state == State::Enabled,
{
    if state != State::Enabled {
        return Err(TriggerMeasurementError::NonEnabled);
    }
    Ok(())
}

/// Waits for a reading on a driver that answers only when it is enabled.
pub fn wait_when_enabled(state: State) -> (r: Result<(), ReadingError>)
    ensures
        state == State::Enabled ==> r.is_ok(),
        state != State::Enabled ==> r == Err::<(), ReadingError>(ReadingError::NonEnabled),
{
    if state != State::Enabled {
        return Err(ReadingError::NonEnabled);
    }
    Ok(())
}

/// Triggers a measurement on a driver that keeps track of measuring: an
/// enabled driver starts to measure, one that measures goes on, any other
/// refuses.
pub fn trigger_measurement(state: &mut State) -> (r: Result<(), TriggerMeasurementError>)
    ensures
        match *old(state) {
            State::Measuring | State::Enabled => r.is_ok() && *final(state) == State::Measuring,
            _ => r.is_err() && *final(state) == *old(state),
        },
{
    match *state {
        State::Measuring => {},
        State::Enabled => {
            *state = State::Measuring;
        },
        State::Uninitialized | State::Disabled | State::Sleeping => {
            return Err(TriggerMeasurementError::NonEnabled);
        },
    }
    Ok(())
}

/// Collects a reading from a driver that keeps track of measuring: one
/// that measures becomes enabled again and the reading can be waited for;
/// an enabled one has nothing to wait for; any other refuses.
pub fn wait_for_reading(state: &mut State) -> (r: Result<(), ReadingError>)
    ensures
        match *old(state) {
            State::Measuring => r.is_ok() && *final(state) == State::Enabled,
            State::Enabled => r == Err::<(), ReadingError>(ReadingError::NotMeasuring) && *final(state) == *old(state),
            _ => r == Err::<(), ReadingError>(ReadingError::NonEnabled) && *final(state) == *old(state),
        },
{
    match *state {
        State::Measuring => {
            *state = State::Enabled;
            Ok(())
        },
        State::Enabled => Err(ReadingError::NotMeasuring),
        State::Uninitialized | State::Disabled | State::Sleeping => Err(ReadingError::NonEnabled),
    }
}

/// The signed number that the bytes `lo` and `hi` spell in two's
/// complement, `lo` holding the low eight bits.
pub open spec fn spec_i16_le(lo: u8, hi: u8) -> int {
    if hi >= 128 {
        hi * 256 + lo - 65536
    } else {
        hi * 256 + lo
    }
}

/// Returns the signed number that the bytes `lo` and `hi` spell.
pub fn i16_le(lo: u8, hi: u8) -> (v: i32)
    ensures
        v == spec_i16_le(lo, hi),
        -32768 <= v <= 32767,
{
    let u: i32 = (hi as i32) * 256 + (lo as i32);
    if hi >= 128 {
        u - 65536
    } else {
        u
    }
}

/// The distance of `x` from zero.
pub open spec fn magnitude(x: int) -> int {
    if x >= 0 {
        x
    } else {
        -x
    }
}

/// The quotient of `a` by `b`, rounded towards zero: the quotient of their
/// distances from zero, with the sign of the exact quotient.
pub open spec fn div_toward_zero(a: int, b: int) -> int {
    if (a >= 0) == (b >= 0) {
        magnitude(a) / magnitude(b)
    } else {
        -(magnitude(a) / magnitude(b))
    }
}

/// Returns the quotient of `a` by `b`, rounded towards zero. The divisor
/// is not zero, and the quotient fits: the lowest number is not divided by
/// minus one.
pub fn div_trunc(a: i32, b: i32) -> (q: i32)
    requires
        b != 0,
        !(a == i32::MIN && b == -1),
    ensures
        q == div_toward_zero(a as int, b as int),
{
    let ua: u32 = if a >= 0 {
        a as u32
    } else {
        (-(a as i64)) as u32
    };
    let ub: u32 = if b >= 0 {
        b as u32
    } else {
        (-(b as i64)) as u32
    };
    let uq: u32 = ua / ub;
    proof {
        assert(uq <= ua) by (nonlinear_arith)
            requires
                uq == (ua as int) / (ub as int),
                ua >= 0,
                ub > 0,
        ;
        if ub >= 2 {
            assert(2 * uq <= ua) by (nonlinear_arith)
                requires
                    uq == (ua as int) / (ub as int),
                    ua >= 0,
                    ub >= 2,
            ;
        }
    }
    if (a >= 0) == (b >= 0) {
        uq as i32
    } else {
        (-(uq as i64)) as i32
    }
}

/// The number of bits of the status register of the inertial unit that say
/// that new gyroscope and new accelerometer data are there.
pub const IMU_DATA_READY_MASK: u8 = 0x03;

/// The bit of the status register of the magnetometer that says that new
/// data are there on all three axes.
pub const MAG_DATA_READY_MASK: u8 = 0x08;

/// Whether a status register shows every bit of `mask`.
pub fn data_ready(status: u8, mask: u8) -> (ready: bool)
    ensures
        ready <==> status & mask == mask,
{
    status & mask == mask
}

/// Returns the three accelerations and the three angular velocities out of
/// the twelve bytes that the inertial unit sends: six signed numbers, low
/// byte first, the angular velocities before the accelerations. The
/// accelerations are divided by 16, the angular velocities by 125, and come
/// first in the result.
pub fn imu_samples(buf: &[u8; 12]) -> (s: [i32; 6])
    ensures
        s[0] == div_toward_zero(spec_i16_le(buf[6], buf[7]), 16),
        s[1] == div_toward_zero(spec_i16_le(buf[8], buf[9]), 16),
        s[2] == div_toward_zero(spec_i16_le(buf[10], buf[11]), 16),
        s[3] == div_toward_zero(spec_i16_le(buf[0], buf[1]), 125),
        s[4] == div_toward_zero(spec_i16_le(buf[2], buf[3]), 125),
        s[5] == div_toward_zero(spec_i16_le(buf[4], buf[5]), 125),
{
    let accel_scale: i32 = 16;
    let accel_x = div_trunc(i16_le(buf[6], buf[7]), accel_scale);
    let accel_y = div_trunc(i16_le(buf[8], buf[9]), accel_scale);
    let accel_z = div_trunc(i16_le(buf[10], buf[11]), accel_scale);
    let gyro_scale: i32 = 125;
    let gyro_x = div_trunc(i16_le(buf[0], buf[1]), gyro_scale);
    let gyro_y = div_trunc(i16_le(buf[2], buf[3]), gyro_scale);
    let gyro_z = div_trunc(i16_le(buf[4], buf[5]), gyro_scale);
    [accel_x, accel_y, accel_z, gyro_x, gyro_y, gyro_z]
}

/// The accuracy of an acceleration of the inertial unit.
pub fn imu_accel_accuracy() -> (a: Accuracy)
    ensures
        a == (Accuracy::SymmetricalError { deviation: 12, bias: 0, scaling: -3i8 }),
{
    Accuracy::SymmetricalError { deviation: 12, bias: 0, scaling: -3 }
}

/// The accuracy of an angular velocity of the inertial unit.
pub fn imu_gyro_accuracy() -> (a: Accuracy)
    ensures
        a == (Accuracy::SymmetricalError { deviation: 1, bias: 0, scaling: 0 }),
{
    Accuracy::SymmetricalError { deviation: 1, bias: 0, scaling: 0 }
}

/// Returns the field on the three axes out of the six bytes that the
/// magnetometer sends: three signed numbers, low byte first, each times
/// three halves, rounded towards zero.
pub fn mag_samples(buf: &[u8; 6]) -> (s: [i32; 3])
    ensures
        s[0] == div_toward_zero(spec_i16_le(buf[0], buf[1]) * 3, 2),
        s[1] == div_toward_zero(spec_i16_le(buf[2], buf[3]) * 3, 2),
        s[2] == div_toward_zero(spec_i16_le(buf[4], buf[5]) * 3, 2),
{
    let mag_x = div_trunc(i16_le(buf[0], buf[1]) * 3, 2);
    let mag_y = div_trunc(i16_le(buf[2], buf[3]) * 3, 2);
    let mag_z = div_trunc(i16_le(buf[4], buf[5]) * 3, 2);
    [mag_x, mag_y, mag_z]
}

/// The accuracy of a field of the magnetometer.
pub fn mag_accuracy() -> (a: Accuracy)
    ensures
        a == (Accuracy::SymmetricalError { deviation: 60, bias: 0, scaling: -7i8 }),
{
    Accuracy::SymmetricalError { deviation: 60, bias: 0, scaling: -7 }
}

/// The bit of the status register of the accelerometer that says that new
/// data are there.
pub const ACCEL_DATA_READY_MASK: u8 = 0x01;

/// The bit of the status register of the pressure sensor that says that a
/// new pressure is there.
pub const PRESSURE_DATA_READY_MASK: u8 = 0x01;

/// The bit of the status register of the thermometer that says that it is
/// still measuring.
pub const THERMOMETER_BUSY_MASK: u8 = 0x01;

/// Whether the thermometer is done measuring: its busy bit is clear.
pub fn thermometer_ready(status: u8) -> (ready: bool)
    ensures
        ready <==> status & THERMOMETER_BUSY_MASK == 0,
{
    status & THERMOMETER_BUSY_MASK == 0
}

/// Returns the acceleration on the three axes out of the six bytes that
/// the accelerometer sends: three signed numbers, low byte first, each
/// divided by 16, rounded towards zero.
pub fn accel_samples(buf: &[u8; 6]) -> (s: [i32; 3])
    ensures
        s[0] == div_toward_zero(spec_i16_le(buf[0], buf[1]), 16),
        s[1] == div_toward_zero(spec_i16_le(buf[2], buf[3]), 16),
        s[2] == div_toward_zero(spec_i16_le(buf[4], buf[5]), 16),
{
    let accel_scale: i32 = 16;
    let accel_x = div_trunc(i16_le(buf[0], buf[1]), accel_scale);
    let accel_y = div_trunc(i16_le(buf[2], buf[3]), accel_scale);
    let accel_z = div_trunc(i16_le(buf[4], buf[5]), accel_scale);
    [accel_x, accel_y, accel_z]
}

/// The accuracy of an acceleration of the accelerometer.
pub fn accel_accuracy() -> (a: Accuracy)
    ensures
        a == (Accuracy::SymmetricalError { deviation: 11, bias: 0, scaling: -3i8 }),
{
    Accuracy::SymmetricalError { deviation: 11, bias: 0, scaling: -3 }
}

/// Returns the pressure in hectopascal out of the three bytes that the
/// pressure sensor sends: an unsigned number of 24 bits, low byte first,
/// divided by 4096.
pub fn pressure_sample(buf: &[u8; 3]) -> (p: i32)
    ensures
        p == (buf[2] * 65536 + buf[1] * 256 + buf[0]) / 4096,
{
    let raw: i32 = (buf[2] as i32) * 65536 + (buf[1] as i32) * 256 + (buf[0] as i32);
    div_trunc(raw, 4096)
}

/// The accuracy of a pressure of the pressure sensor.
pub fn pressure_accuracy() -> (a: Accuracy)
    ensures
        a == (Accuracy::SymmetricalError { deviation: 35, bias: 0, scaling: 0 }),
{
    Accuracy::SymmetricalError { deviation: 20 + 15, bias: 0, scaling: 0 }
}

/// Returns the temperature in hundredths of a degree Celsius out of the two
/// bytes that the thermometer sends, low byte first. The two bytes are
/// taken as an unsigned number.
pub fn temperature_sample(buf: &[u8; 2]) -> (t: i32)
    ensures
        t == buf[1] * 256 + buf[0],
{
    (buf[1] as i32) * 256 + (buf[0] as i32)
}

/// The accuracy of a temperature of the thermometer, given in hundredths
/// of a degree Celsius: 0.5 degrees strictly between -5 and +55 degrees,
/// 1 degree elsewhere.
pub open spec fn spec_temperature_accuracy(temp: i32) -> Accuracy {
    if -500 < temp && temp < 5500 {
        Accuracy::SymmetricalError { deviation: 50, bias: 0, scaling: -2i8 }
    } else {
        Accuracy::SymmetricalError { deviation: 100, bias: 0, scaling: -2i8 }
    }
}

/// Returns the accuracy of the temperature `temp` of the thermometer.
pub fn accuracy(temp: i32) -> (a: Accuracy)
    ensures
        a == spec_temperature_accuracy(temp),
{
    if -500 < temp && temp < 5500 {
        return Accuracy::SymmetricalError { deviation: 50, bias: 0, scaling: -2 };
    }
    Accuracy::SymmetricalError { deviation: 100, bias: 0, scaling: -2 }
}

/// What kind of thing a sensor measures.
#[derive(Debug, Copy, Clone, PartialEq, Eq, Structural)]
pub enum Category {
    Accelerometer,
    Gyroscope,
    Magnetometer,
    Pressure,
    RelativeHumidityTemperature,
    Temperature,
}

/// What a channel of a reading stands for.
#[derive(Debug, Copy, Clone, PartialEq, Eq, Structural)]
pub enum Label {
    Main,
    X,
    Y,
    Z,
    Temperature,
    RelativeHumidity,
}

/// The unit of a channel.
#[derive(Debug, Copy, Clone, PartialEq, Eq, Structural)]
pub enum MeasurementUnit {
    AccelG,
    Celsius,
    Degree,
    Pascal,
    PercentageRelativeHumidity,
    Tesla,
}

/// How the samples of one channel are to be read: what they stand for, and
/// their unit, which is `unit` times ten to the power of `scaling`.
#[derive(Debug, Copy, Clone, PartialEq, Eq, Structural)]
pub struct ReadingChannel {
    pub label: Label,
    pub scaling: i8,
    pub unit: MeasurementUnit,
}

/// The sensor drivers.
#[derive(Debug, Copy, Clone, PartialEq, Eq, Structural)]
pub enum Driver {
    /// LIS2DU12, a 3-axis accelerometer.
    Lis2du12,
    /// LIS2MDL, a 3-axis magnetometer.
    Lis2mdl,
    /// LPS22DF, a pressure sensor.
    Lps22df,
    /// LSM6DSV16X, a 6-axis inertial unit.
    Lsm6dsv16x,
    /// SHT3x, a sensor of temperature and humidity.
    Sht3x,
    /// STTS22H, a thermometer.
    Stts22h,
}

/// Three channels for the axes X, Y and Z with one scaling and unit.
pub open spec fn axes(scaling: i8, unit: MeasurementUnit) -> Seq<ReadingChannel> {
    seq![
        ReadingChannel { label: Label::X, scaling, unit },
        ReadingChannel { label: Label::Y, scaling, unit },
        ReadingChannel { label: Label::Z, scaling, unit },
    ]
}

impl Driver {
    /// The kinds of thing that the sensor measures.
    pub open spec fn spec_categories(self) -> Seq<Category> {
        match self {
            Driver::Lis2du12 => seq![Category::Accelerometer],
            Driver::Lis2mdl => seq![Category::Magnetometer],
            Driver::Lps22df => seq![Category::Pressure],
            Driver::Lsm6dsv16x => seq![Category::Accelerometer, Category::Gyroscope],
            Driver::Sht3x => seq![Category::RelativeHumidityTemperature],
            Driver::Stts22h => seq![Category::Temperature],
        }
    }

    /// The channels of a reading of the sensor, in the order of its
    /// samples.
    pub open spec fn spec_reading_channels(self) -> Seq<ReadingChannel> {
        match self {
            Driver::Lis2du12 => axes(-3i8, MeasurementUnit::AccelG),
            Driver::Lis2mdl => axes(-7i8, MeasurementUnit::Tesla),
            Driver::Lps22df => seq![
                ReadingChannel { label: Label::Main, scaling: 2, unit: MeasurementUnit::Pascal },
            ],
            Driver::Lsm6dsv16x => axes(-3i8, MeasurementUnit::AccelG) + axes(
                0,
                MeasurementUnit::Degree,
            ),
            Driver::Sht3x => seq![
                ReadingChannel {
                    label: Label::Temperature,
                    scaling: -2i8,
                    unit: MeasurementUnit::Celsius,
                },
                ReadingChannel {
                    label: Label::RelativeHumidity,
                    scaling: -2i8,
                    unit: MeasurementUnit::PercentageRelativeHumidity,
                },
            ],
            Driver::Stts22h => seq![
                ReadingChannel {
                    label: Label::Main,
                    scaling: -2i8,
                    unit: MeasurementUnit::Celsius,
                },
            ],
        }
    }

    /// Returns the kinds of thing that the sensor measures.
    pub fn categories(self) -> (c: Vec<Category>)
        ensures
            c@ == self.spec_categories(),
    {
        let mut c: Vec<Category> = Vec::new();
        match self {
            Driver::Lis2du12 => c.push(Category::Accelerometer),
            Driver::Lis2mdl => c.push(Category::Magnetometer),
            Driver::Lps22df => c.push(Category::Pressure),
            Driver::Lsm6dsv16x => {
                c.push(Category::Accelerometer);
                c.push(Category::Gyroscope);
            },
            Driver::Sht3x => c.push(Category::RelativeHumidityTemperature),
            Driver::Stts22h => c.push(Category::Temperature),
        }
        proof {
            assert(c@ =~= self.spec_categories());
        }
        c
    }

    /// Returns the channels of a reading of the sensor, in the order of its
    /// samples.
    pub fn reading_channels(self) -> (c: Vec<ReadingChannel>)
        ensures
            c@ == self.spec_reading_channels(),
    {
        let mut c: Vec<ReadingChannel> = Vec::new();
        match self {
            Driver::Lis2du12 => push_axes(&mut c, -3, MeasurementUnit::AccelG),
            Driver::Lis2mdl => push_axes(&mut c, -7, MeasurementUnit::Tesla),
            Driver::Lps22df => c.push(
                ReadingChannel { label: Label::Main, scaling: 2, unit: MeasurementUnit::Pascal },
            ),
            Driver::Lsm6dsv16x => {
                push_axes(&mut c, -3, MeasurementUnit::AccelG);
                push_axes(&mut c, 0, MeasurementUnit::Degree);
            },
            Driver::Sht3x => {
                c.push(
                    ReadingChannel {
                        label: Label::Temperature,
                        scaling: -2,
                        unit: MeasurementUnit::Celsius,
                    },
                );
                c.push(
                    ReadingChannel {
                        label: Label::RelativeHumidity,
                        scaling: -2,
                        unit: MeasurementUnit::PercentageRelativeHumidity,
                    },
                );
            },
            Driver::Stts22h => c.push(
                ReadingChannel { label: Label::Main, scaling: -2, unit: MeasurementUnit::Celsius },
            ),
        }
        proof {
            assert(c@ =~= self.spec_reading_channels());
        }
        c
    }

    /// Returns what the sensor is, in words.
    pub fn display_name(self) -> (name: &'static str)
        ensures
            name@ == (match self {
                Driver::Lis2du12 => "3-axis accelerometer"@,
                Driver::Lis2mdl => "3-axis magnetometer"@,
                Driver::Lps22df => "pressure sensor"@,
                Driver::Lsm6dsv16x => "6-axis IMU"@,
                Driver::Sht3x => "temperature/humidity sensor"@,
                Driver::Stts22h => "thermometer"@,
            }),
    {
        match self {
            Driver::Lis2du12 => "3-axis accelerometer",
            Driver::Lis2mdl => "3-axis magnetometer",
            Driver::Lps22df => "pressure sensor",
            Driver::Lsm6dsv16x => "6-axis IMU",
            Driver::Sht3x => "temperature/humidity sensor",
            Driver::Stts22h => "thermometer",
        }
    }

    /// Returns the part number of the device, where the driver knows one.
    pub fn part_number(self) -> (part: Option<&'static str>)
        ensures
            match self {
                Driver::Lis2du12 => part matches Some(p) && p@ == "LIS2DU12"@,
                Driver::Lis2mdl => part matches Some(p) && p@ == "LIS2MDL"@,
                Driver::Lps22df => part matches Some(p) && p@ == "LPS22DF"@,
                Driver::Lsm6dsv16x => part matches Some(p) && p@ == "LSM6DSV16X"@,
                Driver::Sht3x => part.is_none(),
                Driver::Stts22h => part matches Some(p) && p@ == "STTS22H"@,
            },
    {
        match self {
            Driver::Lis2du12 => Some("LIS2DU12"),
            Driver::Lis2mdl => Some("LIS2MDL"),
            Driver::Lps22df => Some("LPS22DF"),
            Driver::Lsm6dsv16x => Some("LSM6DSV16X"),
            Driver::Sht3x => None,
            Driver::Stts22h => Some("STTS22H"),
        }
    }

    /// Returns the version of the driver.
    pub fn version(self) -> (v: u8)
        ensures
            v == 0,
    {
        0
    }

    /// Returns the address of the device on the I2C bus, where it has one
    /// address only.
    pub fn i2c_address(self) -> (a: Option<u8>)
        ensures
            a == (match self {
                Driver::Lis2du12 => Some(0x19u8),
                Driver::Lis2mdl => Some(0x1Eu8),
                Driver::Lps22df => Some(0x5Du8),
                Driver::Lsm6dsv16x => Some(0x6Bu8),
                Driver::Sht3x => None::<u8>,
                Driver::Stts22h => Some(0x3Fu8),
            }),
    {
        match self {
            Driver::Lis2du12 => Some(0x19),
            Driver::Lis2mdl => Some(0x1E),
            Driver::Lps22df => Some(0x5D),
            Driver::Lsm6dsv16x => Some(0x6B),
            Driver::Sht3x => None,
            Driver::Stts22h => Some(0x3F),
        }
    }
}

fn push_axes(c: &mut Vec<ReadingChannel>, scaling: i8, unit: MeasurementUnit)
    ensures
        final(c)@ == old(c)@ + axes(scaling, unit),
{
    c.push(ReadingChannel { label: Label::X, scaling, unit });
    c.push(ReadingChannel { label: Label::Y, scaling, unit });
    c.push(ReadingChannel { label: Label::Z, scaling, unit });
    proof {
        assert(c@ =~= old(c)@ + axes(scaling, unit));
    }
}

} // verus!

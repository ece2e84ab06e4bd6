//! The GPIO and SPI settings of the RP2040, and how the settings that are
//! common to all chips map to them.

use vstd::prelude::*;
use crate::gpio;
use crate::spi::Mode;

verus! {

/// Whether the Schmitt trigger of an input can be configured.
pub const SCHMITT_TRIGGER_CONFIGURABLE: bool = true;

/// Whether the drive strength of an output can be configured.
pub const DRIVE_STRENGTH_CONFIGURABLE: bool = true;

/// Whether the speed of an output can be configured.
pub const SPEED_CONFIGURABLE: bool = true;

/// The pull resistor of a pin, as the chip names it.
#[derive(Clone, Copy, Debug, PartialEq, Eq, Structural)]
pub enum Pull {
    Disabled,
    Up,
    Down,
}

/// The level of a pin, as the chip names it.
#[derive(Clone, Copy, Debug, PartialEq, Eq, Structural)]
pub enum Level {
    Low,
    High,
}

/// The drive strength of a pin, as the chip names it.
#[derive(Clone, Copy, Debug, PartialEq, Eq, Structural)]
pub enum Drive {
    _2mA,
    _4mA,
    _8mA,
    _12mA,
}

/// The slew rate of a pin, as the chip names it.
#[derive(Clone, Copy, Debug, PartialEq, Eq, Structural)]
pub enum SlewRate {
    Slow,
    Fast,
}

/// The drive strengths that an output of this chip can have.
#[derive(Clone, Copy, Debug, PartialEq, Eq, Structural)]
pub enum DriveStrength {
    _2mA,
    _4mA,
    _8mA,
    _12mA,
}

/// The speeds that an output of this chip can have.
#[derive(Clone, Copy, Debug, PartialEq, Eq, Structural)]
pub enum Speed {
    Low,
    High,
}

/// An input pin as the chip is told to set it up.
#[derive(Clone, Copy, Debug, PartialEq, Eq, Structural)]
pub struct Input {
    /// The number of the pin.
    pub pin: u8,
    /// The pull resistor.
    pub pull: Pull,
    /// Whether the Schmitt trigger is on.
    pub schmitt: bool,
}

/// An output pin as the chip is told to set it up.
#[derive(Clone, Copy, Debug, PartialEq, Eq, Structural)]
pub struct Output {
    /// The number of the pin.
    pub pin: u8,
    /// The level that the pin drives.
    pub level: Level,
    /// The drive strength.
    pub drive: Drive,
    /// The slew rate.
    pub slew_rate: SlewRate,
}

/// Clock polarity of the SPI bus.
#[derive(Clone, Copy, Debug, PartialEq, Eq, Structural)]
pub enum Polarity {
    IdleLow,
    IdleHigh,
}

/// Clock phase of the SPI bus.
#[derive(Clone, Copy, Debug, PartialEq, Eq, Structural)]
pub enum Phase {
    CaptureOnFirstTransition,
    CaptureOnSecondTransition,
}

/// The pull resistor of the chip that stands for `pull`.
pub open spec fn pull_of(pull: gpio::Pull) -> Pull {
    match pull {
        gpio::Pull::Disabled => Pull::Disabled,
        gpio::Pull::Up => Pull::Up,
        gpio::Pull::Down => Pull::Down,
    }
}

/// The level of the chip that stands for `level`.
pub open spec fn level_of(level: gpio::Level) -> Level {
    match level {
        gpio::Level::Low => Level::Low,
        gpio::Level::High => Level::High,
    }
}

/// The common level that stands for the level `level` of the chip.
pub open spec fn level_from(level: Level) -> gpio::Level {
    match level {
        Level::Low => gpio::Level::Low,
        Level::High => gpio::Level::High,
    }
}

/// The drive strength of the chip for a drive strength common to all
/// chips: the chip's own value as it is, the lowest and highest that the
/// chip has for `Lowest` and for `High` and `Highest`, the value after a
/// reset for `Standard`.
pub open spec fn drive_strength_of(d: gpio::DriveStrength<DriveStrength>) -> DriveStrength {
    match d {
        gpio::DriveStrength::Arch(a) => a,
        gpio::DriveStrength::Lowest => DriveStrength::_2mA,
        gpio::DriveStrength::Standard => DriveStrength::_4mA,
        gpio::DriveStrength::Medium => DriveStrength::_8mA,
        gpio::DriveStrength::High => DriveStrength::_12mA,
        gpio::DriveStrength::Highest => DriveStrength::_12mA,
    }
}

/// The speed of the chip for a speed common to all chips.
pub open spec fn speed_of(s: gpio::Speed<Speed>) -> Speed {
    match s {
        gpio::Speed::Arch(a) => a,
        gpio::Speed::Low => Speed::Low,
        gpio::Speed::Medium => Speed::Low,
        gpio::Speed::High => Speed::High,
        gpio::Speed::VeryHigh => Speed::High,
    }
}

/// The drive of the chip for the drive strength `d`.
pub open spec fn drive_of(d: DriveStrength) -> Drive {
    match d {
        DriveStrength::_2mA => Drive::_2mA,
        DriveStrength::_4mA => Drive::_4mA,
        DriveStrength::_8mA => Drive::_8mA,
        DriveStrength::_12mA => Drive::_12mA,
    }
}

/// The slew rate of the chip for the speed `s`.
pub open spec fn slew_rate_of(s: Speed) -> SlewRate {
    match s {
        Speed::Low => SlewRate::Slow,
        Speed::High => SlewRate::Fast,
    }
}

/// The clock polarity and phase of SPI mode `mode`.
pub open spec fn mode_of(mode: Mode) -> (Polarity, Phase) {
    match mode {
        Mode::Mode0 => (Polarity::IdleLow, Phase::CaptureOnFirstTransition),
        Mode::Mode1 => (Polarity::IdleLow, Phase::CaptureOnSecondTransition),
        Mode::Mode2 => (Polarity::IdleHigh, Phase::CaptureOnFirstTransition),
        Mode::Mode3 => (Polarity::IdleHigh, Phase::CaptureOnSecondTransition),
    }
}

impl Default for DriveStrength {
    /// The value after a reset.
    fn default() -> (d: DriveStrength)
        ensures
            d == DriveStrength::_4mA,
    {
        DriveStrength::_4mA
    }
}

impl Default for Speed {
    /// The value after a reset.
    fn default() -> (s: Speed)
        ensures
            s == Speed::Low,
    {
        Speed::Low
    }
}

impl From<gpio::Pull> for Pull {
    fn from(pull: gpio::Pull) -> (p: Pull) {
        match pull {
            gpio::Pull::Disabled => Pull::Disabled,
            gpio::Pull::Up => Pull::Up,
            gpio::Pull::Down => Pull::Down,
        }
    }
}

impl vstd::std_specs::convert::FromSpecImpl<gpio::Pull> for Pull {
    open spec fn obeys_from_spec() -> bool {
        true
    }

    open spec fn from_spec(pull: gpio::Pull) -> Pull {
        pull_of(pull)
    }
}

impl From<gpio::Level> for Level {
    fn from(level: gpio::Level) -> (l: Level) {
        match level {
            gpio::Level::Low => Level::Low,
            gpio::Level::High => Level::High,
        }
    }
}

impl vstd::std_specs::convert::FromSpecImpl<gpio::Level> for Level {
    open spec fn obeys_from_spec() -> bool {
        true
    }

    open spec fn from_spec(level: gpio::Level) -> Level {
        level_of(level)
    }
}

impl From<Level> for gpio::Level {
    fn from(level: Level) -> (l: gpio::Level) {
        match level {
            Level::Low => gpio::Level::Low,
            Level::High => gpio::Level::High,
        }
    }
}

impl vstd::std_specs::convert::FromSpecImpl<Level> for gpio::Level {
    open spec fn obeys_from_spec() -> bool {
        true
    }

    open spec fn from_spec(level: Level) -> gpio::Level {
        level_from(level)
    }
}

impl From<DriveStrength> for Drive {
    fn from(drive_strength: DriveStrength) -> (d: Drive) {
        match drive_strength {
            DriveStrength::_2mA => Drive::_2mA,
            DriveStrength::_4mA => Drive::_4mA,
            DriveStrength::_8mA => Drive::_8mA,
            DriveStrength::_12mA => Drive::_12mA,
        }
    }
}

impl vstd::std_specs::convert::FromSpecImpl<DriveStrength> for Drive {
    open spec fn obeys_from_spec() -> bool {
        true
    }

    open spec fn from_spec(drive_strength: DriveStrength) -> Drive {
        drive_of(drive_strength)
    }
}

impl From<Speed> for SlewRate {
    fn from(speed: Speed) -> (s: SlewRate) {
        match speed {
            Speed::Low => SlewRate::Slow,
            Speed::High => SlewRate::Fast,
        }
    }
}

impl vstd::std_specs::convert::FromSpecImpl<Speed> for SlewRate {
    open spec fn obeys_from_spec() -> bool {
        true
    }

    open spec fn from_spec(speed: Speed) -> SlewRate {
        slew_rate_of(speed)
    }
}

impl From<gpio::DriveStrength<DriveStrength>> for DriveStrength {
    fn from(drive_strength: gpio::DriveStrength<DriveStrength>) -> (d: DriveStrength) {
        match drive_strength {
            gpio::DriveStrength::Arch(drive_strength) => drive_strength,
            gpio::DriveStrength::Lowest => DriveStrength::_2mA,
            gpio::DriveStrength::Standard => DriveStrength::_4mA,
            gpio::DriveStrength::Medium => DriveStrength::_8mA,
            gpio::DriveStrength::High => DriveStrength::_12mA,
            gpio::DriveStrength::Highest => DriveStrength::_12mA,
        }
    }
}

impl vstd::std_specs::convert::FromSpecImpl<gpio::DriveStrength<DriveStrength>> for DriveStrength {
    open spec fn obeys_from_spec() -> bool {
        true
    }

    open spec fn from_spec(drive_strength: gpio::DriveStrength<DriveStrength>) -> DriveStrength {
        drive_strength_of(drive_strength)
    }
}

impl From<gpio::Speed<Speed>> for Speed {
    fn from(speed: gpio::Speed<Speed>) -> (s: Speed) {
        match speed {
            gpio::Speed::Arch(speed) => speed,
            gpio::Speed::Low => Speed::Low,
            gpio::Speed::Medium => Speed::Low,
            gpio::Speed::High => Speed::High,
            gpio::Speed::VeryHigh => Speed::High,
        }
    }
}

impl vstd::std_specs::convert::FromSpecImpl<gpio::Speed<Speed>> for Speed {
    open spec fn obeys_from_spec() -> bool {
        true
    }

    open spec fn from_spec(speed: gpio::Speed<Speed>) -> Speed {
        speed_of(speed)
    }
}

/// Returns the settings of an input on pin `pin`.
pub fn new_input(pin: u8, pull: gpio::Pull, schmitt_trigger: bool) -> (r: Result<
    Input,
    gpio::Error,
>)
    ensures
        r matches Ok(input) && input == (Input { pin, pull: pull_of(pull), schmitt: schmitt_trigger }),
{
    let pull = Pull::from(pull);
    Ok(Input { pin, pull, schmitt: schmitt_trigger })
}

/// Returns the settings of an input on pin `pin` that can wait for its
/// level to change. On this chip every input can.
pub fn new_int_enabled(pin: u8, pull: gpio::Pull, schmitt_trigger: bool) -> (r: Result<
    Input,
    gpio::Error,
>)
    ensures
        r matches Ok(input) && input == (Input { pin, pull: pull_of(pull), schmitt: schmitt_trigger }),
{
    new_input(pin, pull, schmitt_trigger)
}

/// Returns the settings of an output on pin `pin`.
pub fn new_output(pin: u8, initial_level: gpio::Level, drive_strength: DriveStrength, speed: Speed) -> (o:
    Output)
    ensures
        o == (Output {
            pin,
            level: level_of(initial_level),
            drive: drive_of(drive_strength),
            slew_rate: slew_rate_of(speed),
        }),
{
    Output {
        pin,
        level: Level::from(initial_level),
        drive: Drive::from(drive_strength),
        slew_rate: SlewRate::from(speed),
    }
}

/// Returns the clock polarity and phase of SPI mode `mode`.
pub fn from_mode(mode: Mode) -> (r: (Polarity, Phase))
    ensures
        r == mode_of(mode),
{
    match mode {
        Mode::Mode0 => (Polarity::IdleLow, Phase::CaptureOnFirstTransition),
        Mode::Mode1 => (Polarity::IdleLow, Phase::CaptureOnSecondTransition),
        Mode::Mode2 => (Polarity::IdleHigh, Phase::CaptureOnFirstTransition),
        Mode::Mode3 => (Polarity::IdleHigh, Phase::CaptureOnSecondTransition),
    }
}

} // verus!

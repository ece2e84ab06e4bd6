//! Consistent GPIO access: inputs and outputs, and the builders that set
//! them up.
//!
//! A pin is named by its number. An input or output holds the settings
//! that the chip was given for it.

use vstd::prelude::*;
use crate::rp;

verus! {

/// Pull-up/pull-down resistor configuration.
#[derive(Copy, Clone, Debug, PartialEq, Eq, Structural)]
pub enum Pull {
    /// No pull-up or pull-down resistor.
    Disabled,
    /// Pull-up resistor.
    Up,
    /// Pull-down resistor.
    Down,
}

/// Digital level of a pin.
#[derive(Copy, Clone, Debug, PartialEq, Eq, Structural)]
pub enum Level {
    /// Digital low level.
    Low,
    /// Digital high level.
    High,
}

/// Drive strength of an output, in terms common to all chips.
#[derive(Copy, Clone, Debug, PartialEq, Eq)]
pub enum DriveStrength<A> {
    /// A value of the chip's own.
    Arch(A),
    /// Lowest drive strength available on this chip.
    Lowest,
    /// Most common reset value of drive strength.
    Standard,
    /// Around 10 mA.
    Medium,
    /// Around 20 mA.
    High,
    /// Highest drive strength available on this chip.
    Highest,
}

/// Speed of an output, in terms common to all chips.
#[derive(Copy, Clone, Debug, PartialEq, Eq)]
pub enum Speed<A> {
    /// A value of the chip's own.
    Arch(A),
    /// Low speed.
    Low,
    /// Medium speed.
    Medium,
    /// High speed.
    High,
    /// Very high speed.
    VeryHigh,
}

/// What can go wrong when an input is set up.
#[derive(Copy, Clone, Debug, PartialEq, Eq, Structural)]
pub enum Error {
    /// No interrupt channel is left for the pin.
    InterruptChannel,
}

/// A GPIO input.
pub struct Input {
    input: rp::Input,
}

/// A GPIO input that can wait for its level to change.
pub struct IntEnabledInput {
    input: rp::Input,
}

/// Builder type for [`Input`], can be obtained with [`Input::builder()`].
pub struct InputBuilder {
    pin: u8,
    pull: Pull,
    schmitt_trigger: bool,
}

/// A GPIO output.
pub struct Output {
    output: rp::Output,
}

/// Builder type for [`Output`], can be obtained with [`Output::builder()`].
pub struct OutputBuilder {
    pin: u8,
    initial_level: Level,
    drive_strength: DriveStrength<rp::DriveStrength>,
    speed: Speed<rp::Speed>,
}

impl View for Input {
    type V = rp::Input;

    closed spec fn view(&self) -> rp::Input {
        self.input
    }
}

impl View for IntEnabledInput {
    type V = rp::Input;

    closed spec fn view(&self) -> rp::Input {
        self.input
    }
}

impl View for Output {
    type V = rp::Output;

    closed spec fn view(&self) -> rp::Output {
        self.output
    }
}

impl Input {
    /// Returns a configured [`Input`].
    pub fn new(pin: u8, pull: Pull) -> (i: Input)
        ensures
            i@ == (rp::Input { pin, pull: rp::pull_of(pull), schmitt: false }),
    {
        Self::builder(pin, pull).build()
    }

    /// Returns an [`InputBuilder`], allowing to configure the GPIO input
    /// further. The Schmitt trigger is off.
    pub fn builder(pin: u8, pull: Pull) -> (b: InputBuilder)
        ensures
            b.spec_pin() == pin,
            b.spec_pull() == pull,
            !b.spec_schmitt_trigger(),
    {
        InputBuilder { pin, pull, schmitt_trigger: false }
    }

    /// Returns the settings that the chip was given.
    pub fn settings(&self) -> (s: rp::Input)
        ensures
            s == self@,
    {
        self.input
    }
}

impl IntEnabledInput {
    /// Returns the settings that the chip was given.
    pub fn settings(&self) -> (s: rp::Input)
        ensures
            s == self@,
    {
        self.input
    }
}

impl InputBuilder {
    /// The number of the pin.
    pub closed spec fn spec_pin(&self) -> u8 {
        self.pin
    }

    /// The pull resistor.
    pub closed spec fn spec_pull(&self) -> Pull {
        self.pull
    }

    /// Whether the Schmitt trigger is to be on.
    pub closed spec fn spec_schmitt_trigger(&self) -> bool {
        self.schmitt_trigger
    }

    /// Configures the input's Schmitt trigger.
    #[must_use]
    pub fn schmitt_trigger(self, enable: bool) -> (b: InputBuilder)
        ensures
            b.spec_pin() == self.spec_pin(),
            b.spec_pull() == self.spec_pull(),
            b.spec_schmitt_trigger() == enable,
    {
        InputBuilder { schmitt_trigger: enable, ..self }
    }

    /// Configures the input's Schmitt trigger where the chip has one to
    /// configure, and does nothing where it has not.
    #[must_use]
    pub fn opt_schmitt_trigger(self, enable: bool) -> (b: InputBuilder)
        ensures
            b.spec_pin() == self.spec_pin(),
            b.spec_pull() == self.spec_pull(),
            b.spec_schmitt_trigger() == (if rp::SCHMITT_TRIGGER_CONFIGURABLE {
                enable
            } else {
                self.spec_schmitt_trigger()
            }),
    {
        if rp::SCHMITT_TRIGGER_CONFIGURABLE {
            InputBuilder { schmitt_trigger: enable, ..self }
        } else {
            self
        }
    }

    /// Returns an [`Input`] by finalizing the builder.
    pub fn build(self) -> (i: Input)
        ensures
            i@ == (rp::Input {
                pin: self.spec_pin(),
                pull: rp::pull_of(self.spec_pull()),
                schmitt: self.spec_schmitt_trigger(),
            }),
    {
        match rp::new_input(self.pin, self.pull, self.schmitt_trigger) {
            Ok(input) => Input { input },
            Err(_) => {
                proof {
                    assert(false);
                }
                Input { input: rp::Input { pin: self.pin, pull: rp::Pull::Disabled, schmitt: false } }
            },
        }
    }

    /// Returns an [`IntEnabledInput`] by finalizing the builder.
    ///
    /// Fails where the chip has no interrupt channel left for the pin; this
    /// chip has one for every pin.
    pub fn build_with_interrupt(self) -> (r: Result<IntEnabledInput, Error>)
        ensures
            r matches Ok(i) && i@ == (rp::Input {
                pin: self.spec_pin(),
                pull: rp::pull_of(self.spec_pull()),
                schmitt: self.spec_schmitt_trigger(),
            }),
    {
        match rp::new_int_enabled(self.pin, self.pull, self.schmitt_trigger) {
            Ok(input) => Ok(IntEnabledInput { input }),
            Err(e) => Err(e),
        }
    }
}

impl Output {
    /// Returns a configured [`Output`], with the drive strength and the
    /// speed that the chip has after a reset.
    pub fn new(pin: u8, initial_level: Level) -> (o: Output)
        ensures
            o@ == (rp::Output {
                pin,
                level: rp::level_of(initial_level),
                drive: rp::Drive::_4mA,
                slew_rate: rp::SlewRate::Slow,
            }),
    {
        Self::builder(pin, initial_level).build()
    }

    /// Returns an [`OutputBuilder`], allowing to configure the GPIO output
    /// further. Drive strength and speed are the standard ones.
    pub fn builder(pin: u8, initial_level: Level) -> (b: OutputBuilder)
        ensures
            b.spec_pin() == pin,
            b.spec_initial_level() == initial_level,
            b.spec_drive_strength() == DriveStrength::<rp::DriveStrength>::Standard,
            b.spec_speed() == Speed::<rp::Speed>::Low,
    {
        OutputBuilder {
            pin,
            initial_level,
            drive_strength: DriveStrength::Standard,
            speed: Speed::Low,
        }
    }

    /// Returns the settings that the chip was given, with the level that
    /// the pin drives now.
    pub fn settings(&self) -> (s: rp::Output)
        ensures
            s == self@,
    {
        self.output
    }

    /// Sets the output as high.
    pub fn set_high(&mut self)
        ensures
            final(self)@ == (rp::Output { level: rp::Level::High, ..old(self)@ }),
    {
        self.output.level = rp::Level::High;
    }

    /// Sets the output as low.
    pub fn set_low(&mut self)
        ensures
            final(self)@ == (rp::Output { level: rp::Level::Low, ..old(self)@ }),
    {
        self.output.level = rp::Level::Low;
    }

    /// Sets the output level.
    pub fn set_level(&mut self, level: Level)
        ensures
            final(self)@ == (rp::Output { level: rp::level_of(level), ..old(self)@ }),
    {
        self.output.level = rp::Level::from(level);
    }

    /// Toggles the output level.
    pub fn toggle(&mut self)
        ensures
            final(self)@ == (rp::Output {
                level: if old(self)@.level == rp::Level::High {
                    rp::Level::Low
                } else {
                    rp::Level::High
                },
                ..old(self)@
            }),
    {
        if self.output.level == rp::Level::High {
            self.output.level = rp::Level::Low;
        } else {
            self.output.level = rp::Level::High;
        }
    }
}

impl OutputBuilder {
    /// The number of the pin.
    pub closed spec fn spec_pin(&self) -> u8 {
        self.pin
    }

    /// The level that the pin drives at first.
    pub closed spec fn spec_initial_level(&self) -> Level {
        self.initial_level
    }

    /// The drive strength.
    pub closed spec fn spec_drive_strength(&self) -> DriveStrength<rp::DriveStrength> {
        self.drive_strength
    }

    /// The speed.
    pub closed spec fn spec_speed(&self) -> Speed<rp::Speed> {
        self.speed
    }

    /// Configures the output's drive strength.
    #[must_use]
    pub fn drive_strength(self, drive_strength: DriveStrength<rp::DriveStrength>) -> (b:
        OutputBuilder)
        ensures
            b.spec_pin() == self.spec_pin(),
            b.spec_initial_level() == self.spec_initial_level(),
            b.spec_drive_strength() == drive_strength,
            b.spec_speed() == self.spec_speed(),
    {
        OutputBuilder { drive_strength, ..self }
    }

    /// Configures the output's speed.
    #[must_use]
    pub fn speed(self, speed: Speed<rp::Speed>) -> (b: OutputBuilder)
        ensures
            b.spec_pin() == self.spec_pin(),
            b.spec_initial_level() == self.spec_initial_level(),
            b.spec_drive_strength() == self.spec_drive_strength(),
            b.spec_speed() == speed,
    {
        OutputBuilder { speed, ..self }
    }

    /// Returns an [`Output`] by finalizing the builder.
    pub fn build(self) -> (o: Output)
        ensures
            o@ == (rp::Output {
                pin: self.spec_pin(),
                level: rp::level_of(self.spec_initial_level()),
                drive: rp::drive_of(rp::drive_strength_of(self.spec_drive_strength())),
                slew_rate: rp::slew_rate_of(rp::speed_of(self.spec_speed())),
            }),
    {
        let drive_strength = rp::DriveStrength::from(self.drive_strength);
        let speed = rp::Speed::from(self.speed);
        let output = rp::new_output(self.pin, self.initial_level, drive_strength, speed);
        Output { output }
    }
}

} // verus!

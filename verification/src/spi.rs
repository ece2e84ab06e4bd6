//! Settings of the SPI bus that are common to all chips.

use vstd::prelude::*;

verus! {

/// SPI mode: clock polarity (CPOL) and clock phase (CPHA).
#[derive(Copy, Clone, Debug, PartialEq, Eq, Structural)]
pub enum Mode {
    /// CPOL = 0, CPHA = 0.
    Mode0,
    /// CPOL = 0, CPHA = 1.
    Mode1,
    /// CPOL = 1, CPHA = 0.
    Mode2,
    /// CPOL = 1, CPHA = 1.
    Mode3,
}

/// Order in which bits are transmitted.
#[derive(Copy, Clone, Debug, PartialEq, Eq, Structural)]
pub enum BitOrder {
    /// Most significant bit first.
    MsbFirst,
    /// Least significant bit first.
    LsbFirst,
}

impl Default for BitOrder {
    fn default() -> (b: BitOrder)
        ensures
            b == BitOrder::MsbFirst,
    {
        BitOrder::MsbFirst
    }
}

/// A frequency in kilohertz.
#[derive(Copy, Clone, Debug, PartialEq, Eq, Structural)]
pub struct Kilohertz(pub u32);

impl Kilohertz {
    /// Returns the frequency of `khz` kilohertz.
    #[allow(non_snake_case)]
    pub fn kHz(khz: u32) -> (k: Kilohertz)
        ensures
            k.0 == khz,
    {
        Kilohertz(khz)
    }

    /// Returns the frequency of `mhz` megahertz.
    #[allow(non_snake_case)]
    pub fn MHz(mhz: u32) -> (k: Kilohertz)
        requires
            mhz * 1000 <= u32::MAX,
        ensures
            k.0 == mhz * 1000,
    {
        Kilohertz(mhz * 1000)
    }

    /// Returns the number of kilohertz.
    pub fn raw(self) -> (khz: u32)
        ensures
            khz == self.0,
    {
        self.0
    }
}

/// SPI bus frequency.
#[derive(Debug, Copy, Clone, PartialEq, Eq, Structural)]
pub enum Frequency {
    /// Arbitrary frequency.
    F(Kilohertz),
}

impl Frequency {
    /// The number of kilohertz of this frequency.
    pub open spec fn spec_khz(self) -> u32 {
        match self {
            Frequency::F(k) => k.0,
        }
    }

    /// Returns the number of kilohertz of this frequency.
    pub fn khz(self) -> (khz: u32)
        ensures
            khz == self.spec_khz(),
    {
        match self {
            Frequency::F(kilohertz) => kilohertz.raw(),
        }
    }
}

/// The highest frequency that the bus takes, in kilohertz.
pub const MAX_FREQUENCY_KHZ: u32 = 80_000;

/// SPI bus configuration.
#[derive(Clone, Copy, Debug, PartialEq, Eq, Structural)]
pub struct Config {
    /// The frequency at which the bus should operate.
    pub frequency: Frequency,
    /// The SPI mode to use.
    pub mode: Mode,
    /// The order in which bits are transmitted.
    pub bit_order: BitOrder,
}

impl Default for Config {
    /// The highest frequency, mode 0, most significant bit first.
    fn default() -> (c: Config)
        ensures
            c == (Config {
                frequency: Frequency::F(Kilohertz(MAX_FREQUENCY_KHZ)),
                mode: Mode::Mode0,
                bit_order: BitOrder::MsbFirst,
            }),
    {
        Config {
            frequency: Frequency::F(Kilohertz::MHz(80)),
            mode: Mode::Mode0,
            bit_order: BitOrder::default(),
        }
    }
}

} // verus!

//! nRF9151 DK.

use vstd::prelude::*;
use crate::peripherals::OptionalPeripherals;

verus! {

/// The pins of the LEDs, each as its port and its number in the port: pins
/// 0, 1, 4 and 5 of port 0.
pub const LEDS: [(u8, u8); 4] = [(0, 0), (0, 1), (0, 4), (0, 5)];

/// The pins of the buttons: pins 8, 9, 18 and 19 of port 0.
pub const BUTTONS: [(u8, u8); 4] = [(0, 8), (0, 9), (0, 18), (0, 19)];

/// The pins of the first serial line that faces the host: it sends on pin
/// 27 and receives on pin 26 of port 0.
pub const VCOM0: ((u8, u8), (u8, u8)) = ((0, 27), (0, 26));

/// The pins of the second serial line that faces the host: it sends on pin
/// 29 and receives on pin 28 of port 0.
pub const VCOM1: ((u8, u8), (u8, u8)) = ((0, 29), (0, 28));

/// Sets up the board. Nothing on it needs setting up.
pub fn init(peripherals: &mut OptionalPeripherals)
    ensures
        final(peripherals)@ == old(peripherals)@,
{
}

} // verus!

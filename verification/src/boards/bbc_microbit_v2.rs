//! BBC micro:bit v2.

use vstd::prelude::*;
use crate::peripherals::OptionalPeripherals;

verus! {

/// The index of pin `pin` of port `port`.
pub open spec fn spec_pin_index(port: u8, pin: u8) -> int {
    port * 32 + pin
}

/// Returns the index of pin `pin` of port `port`. A port has 32 pins.
pub fn pin_index(port: u8, pin: u8) -> (i: usize)
    ensures
        i == spec_pin_index(port, pin),
{
    port as usize * 32 + pin as usize
}

/// The pins of the buttons, each as its port and its number in the port:
/// pins 14 and 23 of port 0.
pub const BUTTONS: [(u8, u8); 2] = [(0, 14), (0, 23)];

/// The pins of the serial line that faces the host: it sends on pin 6 of
/// port 0 and receives on pin 8 of port 1.
pub const UART_INT: ((u8, u8), (u8, u8)) = ((0, 6), (1, 8));

/// Sets up the board. Nothing on it needs setting up.
pub fn init(peripherals: &mut OptionalPeripherals)
    ensures
        final(peripherals)@ == old(peripherals)@,
{
}

} // verus!

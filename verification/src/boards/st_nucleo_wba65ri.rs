//! ST NUCLEO-WBA65RI.

use vstd::prelude::*;
use crate::peripherals::OptionalPeripherals;

verus! {

/// The pins of the LEDs, each as the number of its port, counted from port
/// A, and its number in the port: PD8, PC4 and PB8.
pub const LEDS: [(u8, u8); 3] = [(3, 8), (2, 4), (1, 8)];

/// The pins of the buttons: PC13, PC5 and PB4.
pub const BUTTONS: [(u8, u8); 3] = [(2, 13), (2, 5), (1, 4)];

/// Sets up the board. Nothing on it needs setting up.
pub fn init(peripherals: &mut OptionalPeripherals)
    ensures
        final(peripherals)@ == old(peripherals)@,
{
}

} // verus!

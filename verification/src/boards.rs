//! The boards: which pins their buttons, LEDs and serial lines are on.

pub mod bbc_microbit_v2;
pub mod nrf9151_dk;
pub mod st_nucleo_wba65ri;

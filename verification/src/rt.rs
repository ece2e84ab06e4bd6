//! Start-up of the runtime on chips whose watchdogs run from reset.

use vstd::prelude::*;

verus! {

/// The watchdog timers of the chip: whether each of them runs.
#[derive(Debug, Copy, Clone, PartialEq, Eq, Structural)]
pub struct Watchdogs {
    /// The super watchdog.
    pub swd: bool,
    /// The watchdog of the real-time clock.
    pub rwdt: bool,
    /// The watchdog of the first timer group.
    pub timg0: bool,
    /// The watchdog of the second timer group.
    pub timg1: bool,
}

/// Prepares the chip for the runtime: stops every watchdog, so that the
/// work done before the hardware layer is set up cannot trigger a reset.
pub fn init(watchdogs: &mut Watchdogs)
    ensures
        *final(watchdogs) == (Watchdogs { swd: false, rwdt: false, timg0: false, timg1: false }),
{
    disable_watchdog(watchdogs);
}

fn disable_watchdog(watchdogs: &mut Watchdogs)
    ensures
        *final(watchdogs) == (Watchdogs { swd: false, rwdt: false, timg0: false, timg1: false }),
{
    watchdogs.swd = false;
    watchdogs.rwdt = false;
    watchdogs.timg0 = false;
    watchdogs.timg1 = false;
}

} // verus!

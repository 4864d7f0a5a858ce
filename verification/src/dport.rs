//! The clock-distribution peripheral.
//!
//! Bring-up splits it once: the portion the clock controller owns for the
//! rest of the run, and the gating handle that later peripheral
//! constructors borrow to switch their own clock on.

use vstd::prelude::*;

verus! {

/// The clock-distribution registers kept after the split: the per-
/// peripheral clock gates.
pub struct Dport {
    uart0_clock_on: bool,
}

/// The portion of the clock-distribution controller that clock bring-up
/// consumes.
pub struct DportClockControl {}

impl Dport {
    /// Whether the transmitter's clock gate has been switched on.
    pub closed spec fn uart0_clock_on(self) -> bool {
        self.uart0_clock_on
    }

    /// The clock-distribution peripheral in its reset state: every gate
    /// off.
    pub fn at_reset() -> (d: Dport)
        ensures
            !d.uart0_clock_on(),
    {
        Dport { uart0_clock_on: false }
    }

    /// Splits off the portion of the clock-distribution controller that
    /// clock bring-up needs, keeping the gating handle.
    pub fn split(self) -> (r: (Dport, DportClockControl))
        ensures
            r.0 == self,
    {
        (self, DportClockControl {})
    }

    /// Switches the transmitter's clock gate on.
    pub fn enable_uart0_clock(&mut self)
        ensures
            final(self).uart0_clock_on(),
    {
        self.uart0_clock_on = true;
    }
}

} // verus!

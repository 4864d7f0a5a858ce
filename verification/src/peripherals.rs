//! The chip's peripheral register blocks, as one exclusively owned value.
//!
//! The firmware may acquire the register set only once per boot; here that
//! exclusivity is the ownership of the [`Peripherals`] value itself, which
//! moves into bring-up and can never alias.

use crate::dport::Dport;
use crate::uart::UartSim;
use vstd::prelude::*;

verus! {

/// The reset-and-clock register block.
pub struct RtcCntl {}

/// The always-on register block.
pub struct ApbCtrl {}

/// Every register block bring-up touches, owned together.
pub struct Peripherals {
    pub rtc_cntl: RtcCntl,
    pub apb_ctrl: ApbCtrl,
    pub dport: Dport,
    pub uart0: UartSim,
}

impl Peripherals {
    /// The whole register set in its reset state. `polls_per_byte` is the
    /// transmitter model's transmission rate.
    pub fn at_reset(polls_per_byte: u32) -> (dp: Peripherals)
        requires
            1 <= polls_per_byte,
        ensures
            dp.uart0.wf(),
            dp.uart0.queued().len() == 0,
            dp.uart0.log().len() == 0,
            dp.uart0.polls() == 0,
            dp.uart0.elapsed_polls() == 0,
            dp.uart0.rate() == polls_per_byte,
            dp.uart0.line_config() is None,
            dp.uart0.clkdiv_value() == 0,
            !dp.dport.uart0_clock_on(),
    {
        Peripherals {
            rtc_cntl: RtcCntl {},
            apb_ctrl: ApbCtrl {},
            dport: Dport::at_reset(),
            uart0: UartSim::new(polls_per_byte),
        }
    }
}

} // verus!

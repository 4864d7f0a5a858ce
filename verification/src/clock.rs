//! The clock-control collaborator of the bring-up sequencer.
//!
//! Bring-up prepares the clock-distribution controller with a
//! frequency-selection policy and then freezes it. Freezing locks the clock
//! tree for the rest of the run and yields the derived configuration the
//! transmitter's baud generator divides from, together with a watchdog
//! handle that the caller may deliberately discard.

use crate::dport::DportClockControl;
use crate::peripherals::ApbCtrl;
use crate::peripherals::RtcCntl;
use vstd::prelude::*;

verus! {

/// Frequency-selection policy value asking the controller to autodetect the
/// crystal frequency.
pub const XTAL_FREQUENCY_AUTO: u32 = 0;

/// The slower of the two crystal frequencies the controller supports.
pub const XTAL_FREQUENCY_26M: u32 = 26_000_000;

/// The faster of the two crystal frequencies the controller supports, and
/// the one autodetection settles on.
pub const XTAL_FREQUENCY_DEFAULT: u32 = 40_000_000;

/// Peripheral-bus frequency fixed by the frozen clock configuration; the
/// transmitter's baud divisor is derived from it.
pub const APB_FREQUENCY: u32 = 80_000_000;

/// Failure of clock bring-up; firmware treats one as unrecoverable for the
/// debug path.
#[derive(Clone, Copy, PartialEq, Eq, Structural, Debug)]
pub enum ClockError {
    /// The requested crystal frequency is not one the controller supports.
    FrequencyUnsupported,
}

/// The clock-distribution controller before its configuration is frozen.
/// It owns the register blocks handed over at construction.
pub struct ClockControl {
    rtc_cntl: RtcCntl,
    apb_ctrl: ApbCtrl,
    clock_control: DportClockControl,
    xtal_frequency: u32,
}

/// The clock configuration derived by freezing: the frequencies the rest of
/// the system may rely on from now on.
pub struct ClockControlConfig {
    pub apb_frequency: u32,
}

/// Handle on the watchdog, produced by freezing the clock configuration.
/// Dropping it leaves the watchdog in its default state.
pub struct Watchdog {}

impl ClockControl {
    /// The crystal frequency the controller has settled on.
    pub closed spec fn xtal(self) -> u32 {
        self.xtal_frequency
    }

    /// Takes ownership of the reset-and-clock and always-on register
    /// blocks and of the clock-tree portion of the clock-distribution
    /// controller, under a frequency-selection policy: a supported
    /// crystal frequency, or [`XTAL_FREQUENCY_AUTO`] for autodetection.
    /// Any other policy value is rejected.
    pub fn new(
        rtc_cntl: RtcCntl,
        apb_ctrl: ApbCtrl,
        clock_control: DportClockControl,
        xtal_hz: u32,
    ) -> (r: Result<ClockControl, ClockError>)
        ensures
            r is Ok <==> (xtal_hz == XTAL_FREQUENCY_AUTO || xtal_hz == XTAL_FREQUENCY_26M
                || xtal_hz == XTAL_FREQUENCY_DEFAULT),
            r is Ok ==> r->Ok_0.xtal() == (if xtal_hz == XTAL_FREQUENCY_AUTO {
                XTAL_FREQUENCY_DEFAULT
            } else {
                xtal_hz
            }),
            r is Err ==> r->Err_0 == ClockError::FrequencyUnsupported,
    {
        if xtal_hz == XTAL_FREQUENCY_AUTO {
            Ok(
                ClockControl {
                    rtc_cntl,
                    apb_ctrl,
                    clock_control,
                    xtal_frequency: XTAL_FREQUENCY_DEFAULT,
                },
            )
        } else if xtal_hz == XTAL_FREQUENCY_26M || xtal_hz == XTAL_FREQUENCY_DEFAULT {
            Ok(ClockControl { rtc_cntl, apb_ctrl, clock_control, xtal_frequency: xtal_hz })
        } else {
            Err(ClockError::FrequencyUnsupported)
        }
    }

    /// Freezes the clock tree: clock speeds are locked in for the remainder
    /// of the run. Returns the derived clock configuration and the watchdog
    /// handle.
    pub fn freeze(self) -> (r: Result<(ClockControlConfig, Watchdog), ClockError>)
        ensures
            r is Ok,
            r->Ok_0.0.apb_frequency == APB_FREQUENCY,
    {
        Ok((ClockControlConfig { apb_frequency: APB_FREQUENCY }, Watchdog {}))
    }
}

} // verus!

//! A verified debug-console driver for a memory-mapped UART transmit path.
//!
//! The crate models the transmitter's register block as an explicit value
//! ([`UartSim`]), brings it up once ([`DebugLog::begin`]), and then drives
//! it through a non-blocking byte write, a busy-retry text adapter, and a
//! blocking drain, each with a full functional contract. Exclusive access
//! to the transmit path is the ownership of the [`DebugLog`] value itself:
//! the register block moves into the driver at bring-up and never leaves.

mod button;
mod clock;
mod console;
mod dport;
mod peripherals;
mod serial;
mod uart;

pub use button::ButtonMonitor;
pub use button::lemma_repeated_level_is_quiet;
pub use button::monitor_message;
pub use button::transition;
pub use clock::APB_FREQUENCY;
pub use clock::ClockControl;
pub use clock::ClockControlConfig;
pub use clock::ClockError;
pub use clock::Watchdog;
pub use clock::XTAL_FREQUENCY_26M;
pub use clock::XTAL_FREQUENCY_AUTO;
pub use clock::XTAL_FREQUENCY_DEFAULT;
pub use console::DebugLog;
pub use console::Error;
pub use console::HIGH_WATER_MARK;
pub use console::WriteError;
pub use console::line_policy;
pub use dport::Dport;
pub use dport::DportClockControl;
pub use peripherals::ApbCtrl;
pub use peripherals::Peripherals;
pub use peripherals::RtcCntl;
pub use serial::Config;
pub use serial::DataBits;
pub use serial::Parity;
pub use serial::StopBits;
pub use uart::CLKDIV_MAX;
pub use uart::UartSim;
pub use uart::lemma_idle_at_rest;
pub use uart::lemma_poll_to_idle;
pub use uart::lemma_to_idle_positive;

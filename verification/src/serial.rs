//! The serial line configuration: an immutable record chosen once at
//! bring-up and never exposed for later mutation.

use vstd::prelude::*;

verus! {

/// Number of data bits in one serial frame.
#[derive(Clone, Copy, PartialEq, Eq, Structural, Debug)]
pub enum DataBits {
    DataBits5,
    DataBits6,
    DataBits7,
    DataBits8,
}

/// Parity bit policy of one serial frame.
#[derive(Clone, Copy, PartialEq, Eq, Structural, Debug)]
pub enum Parity {
    ParityNone,
    ParityEven,
    ParityOdd,
}

/// Number of stop bits ending one serial frame.
#[derive(Clone, Copy, PartialEq, Eq, Structural, Debug)]
pub enum StopBits {
    /// One stop bit.
    STOP1,
    /// One and a half stop bits.
    STOP1P5,
    /// Two stop bits.
    STOP2,
}

/// The line configuration of the transmit path: baud rate, data bits,
/// parity and stop bits.
#[derive(Clone, Copy, PartialEq, Eq, Structural, Debug)]
pub struct Config {
    pub baudrate: u32,
    pub data_bits: DataBits,
    pub parity: Parity,
    pub stop_bits: StopBits,
}

} // verus!

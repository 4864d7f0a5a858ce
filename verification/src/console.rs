//! The debug-console driver: one-time bring-up of the transmit path, a
//! non-blocking byte write, the busy-retry text adapter above it, and a
//! blocking drain.
//!
//! The driver owns the register block it addresses, so exclusive access to
//! the transmit path is the ownership of the [`DebugLog`] value itself.

use crate::clock::APB_FREQUENCY;
use crate::clock::ClockControl;
use crate::clock::XTAL_FREQUENCY_AUTO;
use crate::peripherals::Peripherals;
use crate::serial::Config;
use crate::serial::DataBits;
use crate::serial::Parity;
use crate::serial::StopBits;
use crate::uart::CLKDIV_MAX;
use crate::uart::UartSim;
use vstd::prelude::*;
use vstd::string::StringSliceAdditionalSpecFns;

verus! {

/// Error kind reserved for the text adapter: an unrecoverable fault of the
/// byte-write mechanism. The transmit path defines no such fault, and the
/// contracts below show that no operation of this crate ever returns one.
#[derive(Clone, Copy, PartialEq, Eq, Structural, Debug)]
pub enum Error {
    /// Reserved; nothing constructs it.
    Encoding,
}

/// What a single non-blocking write attempt can signal instead of success.
#[derive(Clone, Copy, PartialEq, Eq, Structural, Debug)]
pub enum WriteError {
    /// An unrecoverable fault of the byte-write mechanism. Nothing in this
    /// crate produces one; the variant only keeps the fatal and the
    /// retryable case apart in the type.
    Other(Error),
    /// Backpressure: the FIFO is at the high-water mark and the caller
    /// must retry. The byte was not pushed, and nothing was lost.
    WouldBlock,
}

/// Occupancy bound under which a byte may still be pushed into the
/// transmit FIFO: a safety margin below the hardware's true capacity.
pub const HIGH_WATER_MARK: u8 = 128;

/// The fixed line policy of the debug path: only the baud rate is chosen
/// by the caller; the frame is always 8 data bits, no parity, 1 stop bit.
pub open spec fn line_policy(baud: u32) -> Config {
    Config {
        baudrate: baud,
        data_bits: DataBits::DataBits8,
        parity: Parity::ParityNone,
        stop_bits: StopBits::STOP1,
    }
}

/// The debug-console driver: exclusive logical ownership of one UART
/// transmit path.
pub struct DebugLog {
    uart: UartSim,
}

impl DebugLog {
    /// The transmit path's register block.
    pub closed spec fn uart(self) -> UartSim {
        self.uart
    }

    /// The driver is usable: its register block is well formed.
    pub open spec fn wf(self) -> bool {
        self.uart().wf()
    }

    /// One-time bring-up of the transmit path, in the required order:
    /// takes exclusive ownership of the chip's register blocks, splits the
    /// clock-distribution controller, locks the clock tree at the
    /// autodetected crystal frequency, discards the watchdog handle that
    /// freezing produces, and initializes the transmitter with the fixed
    /// 8N1 line policy and the divisor derived from the frozen clocks.
    /// Requires a baud rate whose divisor the divisor register can hold.
    pub fn begin(baud: u32, dp: Peripherals) -> (console: DebugLog)
        requires
            dp.uart0.wf(),
            1 <= baud,
            baud <= APB_FREQUENCY,
            APB_FREQUENCY as nat / baud as nat <= CLKDIV_MAX as nat,
        ensures
            console.wf(),
            console.uart().queued() == dp.uart0.queued(),
            console.uart().log() == dp.uart0.log(),
            console.uart().polls() == dp.uart0.polls(),
            console.uart().elapsed_polls() == dp.uart0.elapsed_polls(),
            console.uart().rate() == dp.uart0.rate(),
            console.uart().line_config() == Some(line_policy(baud)),
            console.uart().clkdiv_value() == APB_FREQUENCY as nat / baud as nat,
    {
        let Peripherals { rtc_cntl, apb_ctrl, dport, uart0 } = dp;
        let mut uart = uart0;
        let (mut dport, dport_clock_control) = dport.split();
        let clkcntrl = ClockControl::new(
            rtc_cntl,
            apb_ctrl,
            dport_clock_control,
            XTAL_FREQUENCY_AUTO,
        ).unwrap();
        let (clkcntrl_config, _watchdog) = clkcntrl.freeze().unwrap();
        uart.init(
            Config {
                baudrate: baud,
                data_bits: DataBits::DataBits8,
                parity: Parity::ParityNone,
                stop_bits: StopBits::STOP1,
            },
            &clkcntrl_config,
            &mut dport,
        );
        DebugLog { uart }
    }

    /// Reads the current number of bytes queued in the transmit FIFO. One
    /// status poll.
    pub fn count(&mut self) -> (r: u8)
        requires
            old(self).wf(),
        ensures
            final(self).wf(),
            final(self).uart().polled_from(old(self).uart()),
            r as nat == final(self).uart().queued().len(),
    {
        self.uart.read_count()
    }

    /// Reads whether the transmitter's shift-out path is inactive. One
    /// status poll.
    pub fn is_idle(&mut self) -> (r: bool)
        requires
            old(self).wf(),
        ensures
            final(self).wf(),
            final(self).uart().polled_from(old(self).uart()),
            r == (final(self).uart().queued().len() == 0),
    {
        self.uart.read_idle()
    }

    /// Non-blocking byte write: polls the FIFO occupancy once, pushes the
    /// byte if the poll sees the occupancy below the high-water mark, and
    /// otherwise reports `WouldBlock` without pushing anything.
    pub fn write(&mut self, byte: u8) -> (r: Result<(), WriteError>)
        requires
            old(self).wf(),
        ensures
            final(self).wf(),
            old(self).uart().same_setup(final(self).uart()),
            final(self).uart().polls() == old(self).uart().polls() + 1,
            final(self).uart().elapsed_polls() == old(self).uart().poll_elapsed(),
            old(self).uart().poll_queued().len() < HIGH_WATER_MARK ==> {
                &&& r is Ok
                &&& final(self).uart().queued() == old(self).uart().poll_queued().push(byte)
                &&& final(self).uart().log() == old(self).uart().log().push(byte)
            },
            old(self).uart().poll_queued().len() >= HIGH_WATER_MARK ==> {
                &&& r == Err::<(), WriteError>(WriteError::WouldBlock)
                &&& final(self).uart().queued() == old(self).uart().poll_queued()
                &&& final(self).uart().log() == old(self).uart().log()
            },
    {
        if self.count() < HIGH_WATER_MARK {
            self.uart.push(byte);
            Ok(())
        } else {
            Err(WriteError::WouldBlock)
        }
    }

    /// Busy-retries the non-blocking write until the byte is accepted:
    /// exactly one successful FIFO push, however many retries backpressure
    /// forces first. In the register model each retry is one more status
    /// poll, so a full FIFO delays the push by exactly the polls left
    /// until the head byte completes and frees a slot.
    pub fn write_blocking(&mut self, byte: u8) -> (r: Result<(), Error>)
        requires
            old(self).wf(),
        ensures
            final(self).wf(),
            old(self).uart().same_setup(final(self).uart()),
            r is Ok,
            final(self).uart().log() == old(self).uart().log().push(byte),
            old(self).uart().poll_queued().len() < HIGH_WATER_MARK ==> {
                &&& final(self).uart().polls() == old(self).uart().polls() + 1
                &&& final(self).uart().queued() == old(self).uart().poll_queued().push(byte)
                &&& final(self).uart().elapsed_polls() == old(self).uart().poll_elapsed()
            },
            old(self).uart().poll_queued().len() >= HIGH_WATER_MARK ==> {
                &&& final(self).uart().polls() == old(self).uart().polls() + (
                old(self).uart().rate() - old(self).uart().elapsed_polls())
                &&& final(self).uart().queued() == old(self).uart().queued().drop_first().push(
                    byte,
                )
                &&& final(self).uart().elapsed_polls() == 0
            },
    {
        let ghost entry = self.uart();
        loop
            invariant
                entry == old(self).uart(),
                self.wf(),
                entry.same_setup(self.uart()),
                self.uart().log() == entry.log(),
                self.uart().queued() == entry.queued(),
                self.uart().polls() >= entry.polls(),
                self.uart().polls() - entry.polls() == self.uart().elapsed_polls()
                    - entry.elapsed_polls(),
                self.uart().polls() > entry.polls() ==> entry.poll_queued().len()
                    >= HIGH_WATER_MARK,
            decreases self.uart().rate() - self.uart().elapsed_polls(),
        {
            match self.write(byte) {
                Ok(()) => {
                    return Ok(());
                },
                Err(WriteError::WouldBlock) => {},
                Err(WriteError::Other(e)) => {
                    return Err(e);
                },
            }
        }
    }

    /// The text adapter: pushes every byte of the text's UTF-8 encoding
    /// through the blocking byte write, in order. Exactly one successful
    /// FIFO push per byte, however many retries backpressure forces in
    /// between.
    pub fn write_str(&mut self, s: &str) -> (r: Result<(), Error>)
        requires
            old(self).wf(),
        ensures
            final(self).wf(),
            old(self).uart().same_setup(final(self).uart()),
            r is Ok,
            final(self).uart().log() == old(self).uart().log() + s.spec_bytes(),
    {
        let ghost entry = self.uart();
        let bytes = s.as_bytes();
        let n = bytes.len();
        let mut i: usize = 0;
        while i < n
            invariant
                self.wf(),
                entry.same_setup(self.uart()),
                i <= n,
                n == bytes@.len(),
                bytes@ == s.spec_bytes(),
                self.uart().log() == entry.log() + bytes@.subrange(0, i as int),
            decreases n - i,
        {
            let byte = bytes[i];
            match self.write_blocking(byte) {
                Ok(()) => {},
                Err(e) => {
                    return Err(e);
                },
            }
            proof {
                assert(entry.log() + bytes@.subrange(0, i as int).push(byte) =~= entry.log()
                    + bytes@.subrange(0, i as int + 1));
            }
            i = i + 1;
        }
        proof {
            assert(bytes@.subrange(0, n as int) =~= bytes@);
        }
        Ok(())
    }

    /// Writes the text and a trailing line terminator.
    pub fn write_line(&mut self, s: &str) -> (r: Result<(), Error>)
        requires
            old(self).wf(),
        ensures
            final(self).wf(),
            old(self).uart().same_setup(final(self).uart()),
            r is Ok,
            final(self).uart().log() == old(self).uart().log() + s.spec_bytes() + seq![10u8],
    {
        match self.write_str(s) {
            Ok(()) => {},
            Err(e) => {
                return Err(e);
            },
        }
        match self.write_blocking(10u8) {
            Ok(()) => {},
            Err(e) => {
                return Err(e);
            },
        }
        proof {
            assert(old(self).uart().log() + s.spec_bytes() + seq![10u8] =~= (old(self).uart().log()
                + s.spec_bytes()).push(10u8));
        }
        Ok(())
    }

    /// Blocking flush: spin-waits, with no timeout and no yielding, until
    /// the transmitter reports idle. In the register model this performs
    /// exactly the minimal number of status polls and returns only after
    /// idle has been observed.
    pub fn drain(&mut self)
        requires
            old(self).wf(),
        ensures
            final(self).wf(),
            old(self).uart().same_setup(final(self).uart()),
            final(self).uart().log() == old(self).uart().log(),
            final(self).uart().queued().len() == 0,
            final(self).uart().polls() == old(self).uart().polls() + old(
                self,
            ).uart().drain_polls(),
    {
        let ghost entry = self.uart();
        loop
            invariant_except_break
                self.wf(),
                entry.same_setup(self.uart()),
                self.uart().log() == entry.log(),
                self.uart().polls() >= entry.polls(),
                self.uart().polls() + self.uart().to_idle() == entry.polls() + entry.to_idle(),
                self.uart().queued().len() == 0 ==> (entry.queued().len() == 0 && self.uart().polls()
                    == entry.polls()),
            ensures
                self.wf(),
                entry.same_setup(self.uart()),
                self.uart().log() == entry.log(),
                self.uart().queued().len() == 0,
                self.uart().polls() == entry.polls() + entry.drain_polls(),
            decreases self.uart().to_idle() + (if self.uart().queued().len() == 0 {
                1int
            } else {
                0int
            }),
        {
            let ghost prev = self.uart();
            let idle = self.is_idle();
            proof {
                if prev.queued().len() > 0 {
                    crate::uart::lemma_to_idle_positive(prev);
                    crate::uart::lemma_poll_to_idle(prev, self.uart());
                }
            }
            if idle {
                break;
            }
        }
    }

    /// Bounded variant of [`Self::drain`], for callers that opt into a
    /// bounded wait: polls at most `max_polls` times and reports whether
    /// it observed the transmitter idle. Succeeds exactly when the
    /// unbounded drain would have returned within the budget.
    pub fn drain_within(&mut self, max_polls: u32) -> (r: bool)
        requires
            old(self).wf(),
        ensures
            final(self).wf(),
            old(self).uart().same_setup(final(self).uart()),
            final(self).uart().log() == old(self).uart().log(),
            r <==> old(self).uart().drain_polls() <= max_polls,
            r ==> final(self).uart().queued().len() == 0,
            r ==> final(self).uart().polls() == old(self).uart().polls() + old(
                self,
            ).uart().drain_polls(),
            !r ==> final(self).uart().polls() == old(self).uart().polls() + max_polls,
            !r ==> final(self).uart().to_idle() == old(self).uart().to_idle() - max_polls,
    {
        let ghost entry = self.uart();
        let mut polled: u32 = 0;
        let mut done = false;
        while !done && polled < max_polls
            invariant
                entry == old(self).uart(),
                self.wf(),
                entry.same_setup(self.uart()),
                self.uart().log() == entry.log(),
                polled <= max_polls,
                self.uart().polls() == entry.polls() + polled,
                !done ==> (entry.queued().len() == 0 ==> self.uart().queued().len() == 0
                    && polled == 0),
                !done ==> (entry.queued().len() > 0 ==> self.uart().queued().len() > 0
                    && entry.to_idle() == self.uart().to_idle() + polled),
                done ==> (self.uart().queued().len() == 0 && polled == entry.drain_polls()),
            decreases max_polls - polled,
        {
            let ghost prev = self.uart();
            let idle = self.is_idle();
            proof {
                if prev.queued().len() > 0 {
                    crate::uart::lemma_to_idle_positive(prev);
                    crate::uart::lemma_poll_to_idle(prev, self.uart());
                }
            }
            polled = polled + 1;
            if idle {
                done = true;
            }
        }
        proof {
            if !done && self.uart().queued().len() > 0 {
                crate::uart::lemma_to_idle_positive(self.uart());
            }
        }
        done
    }

    /// Observes, without touching the registers, every byte pushed into
    /// the FIFO so far, in push order.
    pub fn pushed_bytes(&self) -> (r: &Vec<u8>)
        ensures
            r@ == self.uart().log(),
    {
        self.uart.log_bytes()
    }

    /// Observes, without touching the registers, the current occupancy.
    pub fn queued_len(&self) -> (r: usize)
        ensures
            r == self.uart().queued().len(),
    {
        self.uart.queued_len()
    }

    /// Reads back the divisor the bring-up programmed into the baud-rate
    /// generator.
    pub fn clkdiv(&self) -> (r: u32)
        ensures
            r as nat == self.uart().clkdiv_value(),
    {
        self.uart.clkdiv()
    }
}

} // verus!

//! A register-level model of the UART transmit path.
//!
//! The driver's state lives entirely in hardware registers, so the model
//! makes that register block an explicit value: the transmit FIFO, the
//! shift clock, and the line setup programmed at bring-up. Time advances
//! with the hardware's own observability: every read of the status
//! register is one poll, and a queued byte finishes shifting out after a
//! fixed number of polls. The model also records every byte ever pushed,
//! so that a test can observe the pushes in order.

use crate::clock::ClockControlConfig;
use crate::dport::Dport;
use crate::serial::Config;
use vstd::prelude::*;

verus! {

/// Largest divisor the baud-rate generator's divisor register can hold.
pub const CLKDIV_MAX: u32 = 0xF_FFFF;

/// The modelled register block of one UART transmitter.
pub struct UartSim {
    /// Bytes queued in the transmit FIFO, oldest first.
    fifo: Vec<u8>,
    /// Every byte ever pushed into the FIFO, in push order.
    pushed: Vec<u8>,
    /// Status reads it takes for one queued byte to finish shifting out.
    polls_per_byte: u32,
    /// Status reads since the byte at the head of the FIFO started.
    elapsed: u32,
    /// The line configuration programmed at bring-up, if any.
    line: Option<Config>,
    /// The baud-rate generator's divisor register.
    clkdiv: u32,
    /// Total status reads performed on this block.
    polls: Ghost<nat>,
}

impl UartSim {
    /// Bytes queued in the transmit FIFO, oldest first.
    pub closed spec fn queued(self) -> Seq<u8> {
        self.fifo@
    }

    /// Every byte ever pushed into the FIFO, in push order.
    pub closed spec fn log(self) -> Seq<u8> {
        self.pushed@
    }

    /// Status reads it takes for one queued byte to finish shifting out.
    pub closed spec fn rate(self) -> nat {
        self.polls_per_byte as nat
    }

    /// Status reads since the byte at the head of the FIFO started.
    pub closed spec fn elapsed_polls(self) -> nat {
        self.elapsed as nat
    }

    /// The line configuration programmed at bring-up, if any.
    pub closed spec fn line_config(self) -> Option<Config> {
        self.line
    }

    /// The value of the baud-rate generator's divisor register.
    pub closed spec fn clkdiv_value(self) -> nat {
        self.clkdiv as nat
    }

    /// Total status reads performed on this block.
    pub closed spec fn polls(self) -> nat {
        self.polls@
    }

    /// Well-formedness of the model: the rate is positive, the shift clock
    /// never reaches a full byte time between polls, the FIFO never holds
    /// more than the high-water mark allows, and an empty FIFO keeps the
    /// shift clock at rest.
    pub open spec fn wf(self) -> bool {
        &&& 1 <= self.rate()
        &&& self.elapsed_polls() < self.rate()
        &&& self.queued().len() <= 128
        &&& (self.queued().len() == 0 ==> self.elapsed_polls() == 0)
    }

    /// The transmit queue after one status read: the poll that completes
    /// the head byte's transmission removes it.
    pub open spec fn poll_queued(self) -> Seq<u8> {
        if self.queued().len() == 0 {
            self.queued()
        } else if self.elapsed_polls() + 1 == self.rate() {
            self.queued().drop_first()
        } else {
            self.queued()
        }
    }

    /// The shift clock after one status read.
    pub open spec fn poll_elapsed(self) -> nat {
        if self.queued().len() == 0 {
            0
        } else if self.elapsed_polls() + 1 == self.rate() {
            0
        } else {
            self.elapsed_polls() + 1
        }
    }

    /// The two states agree on everything bring-up fixed.
    pub open spec fn same_setup(self, other: UartSim) -> bool {
        &&& self.rate() == other.rate()
        &&& self.line_config() == other.line_config()
        &&& self.clkdiv_value() == other.clkdiv_value()
    }

    /// `self` is `pre` after exactly one status read: no byte was pushed,
    /// and the hardware advanced by one poll.
    pub open spec fn polled_from(self, pre: UartSim) -> bool {
        &&& pre.same_setup(self)
        &&& self.log() == pre.log()
        &&& self.polls() == pre.polls() + 1
        &&& self.queued() == pre.poll_queued()
        &&& self.elapsed_polls() == pre.poll_elapsed()
    }

    /// Status reads left until the transmitter is idle.
    pub open spec fn to_idle(self) -> int {
        if self.queued().len() == 0 {
            0
        } else {
            self.queued().len() * self.rate() - self.elapsed_polls()
        }
    }

    /// Status reads a drain started in this state performs: the minimal
    /// number of polls after which idle has been observed once.
    pub open spec fn drain_polls(self) -> int {
        if self.to_idle() == 0 {
            1
        } else {
            self.to_idle()
        }
    }

    /// A transmit path in its reset state: FIFO empty, nothing configured.
    /// `polls_per_byte` is the model's transmission rate.
    pub fn new(polls_per_byte: u32) -> (u: UartSim)
        requires
            1 <= polls_per_byte,
        ensures
            u.wf(),
            u.queued().len() == 0,
            u.log().len() == 0,
            u.polls() == 0,
            u.elapsed_polls() == 0,
            u.rate() == polls_per_byte,
            u.line_config() is None,
            u.clkdiv_value() == 0,
    {
        UartSim {
            fifo: Vec::new(),
            pushed: Vec::new(),
            polls_per_byte,
            elapsed: 0,
            line: None,
            clkdiv: 0,
            polls: Ghost(0),
        }
    }

    /// One step of the simulated hardware, taken on every status read.
    fn tick(&mut self)
        requires
            old(self).wf(),
        ensures
            final(self).wf(),
            final(self).polled_from(*old(self)),
    {
        proof {
            self.polls@ = self.polls@ + 1;
        }
        if self.fifo.len() > 0 {
            if self.elapsed + 1 == self.polls_per_byte {
                self.fifo.remove(0);
                self.elapsed = 0;
                proof {
                    assert(self.fifo@ =~= old(self).fifo@.drop_first());
                }
            } else {
                self.elapsed = self.elapsed + 1;
            }
        }
    }

    /// One read of the status register's transmit-FIFO count field.
    pub fn read_count(&mut self) -> (r: u8)
        requires
            old(self).wf(),
        ensures
            final(self).wf(),
            final(self).polled_from(*old(self)),
            r as nat == final(self).queued().len(),
    {
        self.tick();
        self.fifo.len() as u8
    }

    /// One read of the status register's transmitter-idle flag.
    pub fn read_idle(&mut self) -> (r: bool)
        requires
            old(self).wf(),
        ensures
            final(self).wf(),
            final(self).polled_from(*old(self)),
            r == (final(self).queued().len() == 0),
    {
        self.tick();
        self.fifo.len() == 0
    }

    /// One write to the transmit-FIFO register. Only pushes below the
    /// high-water mark are defined, which forces every caller to check
    /// occupancy first.
    pub fn push(&mut self, byte: u8)
        requires
            old(self).wf(),
            old(self).queued().len() < 128,
        ensures
            final(self).wf(),
            old(self).same_setup(*final(self)),
            final(self).queued() == old(self).queued().push(byte),
            final(self).log() == old(self).log().push(byte),
            final(self).polls() == old(self).polls(),
            final(self).elapsed_polls() == old(self).elapsed_polls(),
    {
        self.fifo.push(byte);
        self.pushed.push(byte);
    }

    /// Initializes the transmitter: switches its clock gate on, stores the
    /// line configuration, and programs the baud divisor derived from the
    /// frozen clock configuration.
    pub fn init(&mut self, config: Config, clocks: &ClockControlConfig, dport: &mut Dport)
        requires
            old(self).wf(),
            1 <= config.baudrate,
            config.baudrate <= clocks.apb_frequency,
            clocks.apb_frequency as nat / config.baudrate as nat <= CLKDIV_MAX as nat,
        ensures
            final(self).wf(),
            final(self).line_config() == Some(config),
            final(self).clkdiv_value() == clocks.apb_frequency as nat / config.baudrate as nat,
            final(self).queued() == old(self).queued(),
            final(self).log() == old(self).log(),
            final(self).polls() == old(self).polls(),
            final(self).elapsed_polls() == old(self).elapsed_polls(),
            final(self).rate() == old(self).rate(),
            final(dport).uart0_clock_on(),
    {
        dport.enable_uart0_clock();
        self.clkdiv = clocks.apb_frequency / config.baudrate;
        self.line = Some(config);
    }

    /// Observes, without touching the registers, every byte pushed so far.
    pub fn log_bytes(&self) -> (r: &Vec<u8>)
        ensures
            r@ == self.log(),
    {
        &self.pushed
    }

    /// Observes, without touching the registers, the current occupancy.
    pub fn queued_len(&self) -> (r: usize)
        ensures
            r == self.queued().len(),
    {
        self.fifo.len()
    }

    /// Reads back the baud-rate generator's divisor register.
    pub fn clkdiv(&self) -> (r: u32)
        ensures
            r as nat == self.clkdiv_value(),
    {
        self.clkdiv
    }
}

/// Idle at rest: a status poll on a transmitter whose FIFO is empty leaves
/// it empty, so the poll observes the transmitter idle. In particular the
/// first idle read after bring-up from reset returns true.
pub proof fn lemma_idle_at_rest(u: UartSim)
    requires
        u.queued().len() == 0,
    ensures
        u.poll_queued().len() == 0,
{
}

/// A transmitter with bytes queued is not yet idle: at least one more
/// status poll is needed.
pub proof fn lemma_to_idle_positive(u: UartSim)
    requires
        u.wf(),
        u.queued().len() > 0,
    ensures
        u.to_idle() > 0,
{
    let k = u.queued().len() as int;
    let r = u.rate() as int;
    assert(k * r >= 1 * r) by (nonlinear_arith)
        requires
            k >= 1,
            r >= 0,
    ;
}

/// Each status read brings an active transmitter exactly one poll closer
/// to idle.
pub proof fn lemma_poll_to_idle(pre: UartSim, post: UartSim)
    requires
        pre.wf(),
        post.polled_from(pre),
        pre.queued().len() > 0,
    ensures
        post.to_idle() == pre.to_idle() - 1,
{
    let k = pre.queued().len() as int;
    let r = pre.rate() as int;
    let e = pre.elapsed_polls() as int;
    if pre.elapsed_polls() + 1 == pre.rate() {
        assert(post.queued() == pre.queued().drop_first());
        assert(post.queued().len() == k - 1);
        assert(post.elapsed_polls() == 0);
        if k == 1 {
            assert(post.to_idle() == 0);
            assert(k * r == r) by (nonlinear_arith)
                requires
                    k == 1,
            ;
            assert(pre.to_idle() == r - e);
        } else {
            assert((k - 1) * r == k * r - r) by (nonlinear_arith);
            assert(post.to_idle() == (k - 1) * r);
        }
    } else {
        assert(post.queued() == pre.queued());
        assert(post.queued().len() == k);
        assert(post.elapsed_polls() == e + 1);
        assert(post.to_idle() == k * r - (e + 1));
    }
}

} // verus!

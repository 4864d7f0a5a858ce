//! Edge detection for a polled digital input.
//!
//! The monitor remembers the last level it observed; each new sample is an
//! event only when the level differs from the remembered one. No debouncing
//! is performed.

use crate::console::DebugLog;
use crate::console::Error;
use vstd::prelude::*;
use vstd::string::StringSliceAdditionalSpecFns;

verus! {

/// The event a sample may produce: the new level, when it differs from the
/// last observed one.
pub open spec fn transition(last: bool, level: bool) -> Option<bool> {
    if level != last {
        Some(level)
    } else {
        None
    }
}

/// The log line a sample makes the monitor emit: one line per transition,
/// nothing otherwise.
pub open spec fn monitor_message(last: bool, level: bool) -> Seq<u8> {
    match transition(last, level) {
        Some(true) => ("Button pushed.").spec_bytes() + seq![10u8],
        Some(false) => ("Button released.").spec_bytes() + seq![10u8],
        None => Seq::empty(),
    }
}

/// Watches a digital input's logic level and reports each low-to-high or
/// high-to-low change exactly once.
pub struct ButtonMonitor {
    last: bool,
}

impl ButtonMonitor {
    /// The level the monitor saw most recently.
    pub closed spec fn last_level(self) -> bool {
        self.last
    }

    /// Starts monitoring from an initially observed level.
    pub fn new(initial: bool) -> (m: ButtonMonitor)
        ensures
            m.last_level() == initial,
    {
        ButtonMonitor { last: initial }
    }

    /// Feeds one polled level to the monitor; returns the new level when it
    /// differs from the last observed one, and nothing otherwise.
    pub fn on_sample(&mut self, level: bool) -> (r: Option<bool>)
        ensures
            final(self).last_level() == level,
            r == transition(old(self).last_level(), level),
    {
        if self.last != level {
            self.last = level;
            Some(level)
        } else {
            None
        }
    }

    /// One round of the polling loop, after the caller has read the
    /// input's level: feeds the sample to the monitor and, on a
    /// transition, emits the matching log line through the console.
    /// Returns the new level exactly when the caller must mirror it onto
    /// the output.
    pub fn monitor_step(&mut self, console: &mut DebugLog, level: bool) -> (r: Result<
        Option<bool>,
        Error,
    >)
        requires
            old(console).wf(),
        ensures
            final(self).last_level() == level,
            r is Ok,
            r->Ok_0 == transition(old(self).last_level(), level),
            final(console).wf(),
            old(console).uart().same_setup(final(console).uart()),
            final(console).uart().log() == old(console).uart().log() + monitor_message(
                old(self).last_level(),
                level,
            ),
    {
        let ghost entry = console.uart();
        let event = self.on_sample(level);
        match event {
            Some(true) => {
                match console.write_line("Button pushed.") {
                    Ok(()) => {},
                    Err(e) => {
                        return Err(e);
                    },
                }
            },
            Some(false) => {
                match console.write_line("Button released.") {
                    Ok(()) => {},
                    Err(e) => {
                        return Err(e);
                    },
                }
            },
            None => {
                proof {
                    assert(console.uart().log() =~= entry.log() + Seq::<u8>::empty());
                }
            },
        }
        Ok(event)
    }
}

/// Edge-triggered, not level-triggered: once a level has been observed, a
/// second sample of the same level produces no event.
pub proof fn lemma_repeated_level_is_quiet(level: bool)
    ensures
        transition(level, level) == None::<bool>,
{
}

} // verus!

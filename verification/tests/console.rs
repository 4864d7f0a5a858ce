use debug_console::ApbCtrl;
use debug_console::ClockControl;
use debug_console::ClockError;
use debug_console::DebugLog;
use debug_console::DportClockControl;
use debug_console::Peripherals;
use debug_console::RtcCntl;
use debug_console::WriteError;
use debug_console::XTAL_FREQUENCY_AUTO;

#[test]
fn idle_after_begin() {
    let mut console = DebugLog::begin(19200, Peripherals::at_reset(1));
    assert!(console.is_idle());
    assert_eq!(console.count(), 0);
}

#[test]
fn begin_programs_divisor() {
    let console = DebugLog::begin(19200, Peripherals::at_reset(1));
    assert_eq!(console.clkdiv(), 80_000_000 / 19200);
    assert_eq!(console.clkdiv(), 4166);
}

#[test]
fn begin_at_baud_extremes() {
    let slow = DebugLog::begin(77, Peripherals::at_reset(1));
    assert_eq!(slow.clkdiv(), 1_038_961);
    let fast = DebugLog::begin(80_000_000, Peripherals::at_reset(1));
    assert_eq!(fast.clkdiv(), 1);
}

fn fresh_clock_control(xtal_hz: u32) -> Result<ClockControl, ClockError> {
    ClockControl::new(RtcCntl {}, ApbCtrl {}, DportClockControl {}, xtal_hz)
}

#[test]
fn clock_control_rejects_odd_frequency() {
    assert!(matches!(
        fresh_clock_control(12_345),
        Err(ClockError::FrequencyUnsupported)
    ));
    assert!(fresh_clock_control(XTAL_FREQUENCY_AUTO).is_ok());
    assert!(fresh_clock_control(26_000_000).is_ok());
    assert!(fresh_clock_control(40_000_000).is_ok());
}

#[test]
fn write_pushes_below_high_water() {
    let mut console = DebugLog::begin(19200, Peripherals::at_reset(1_000_000));
    assert!(console.write(b'A').is_ok());
    assert_eq!(console.pushed_bytes().as_slice(), b"A");
    assert_eq!(console.queued_len(), 1);
}

#[test]
fn write_blocks_at_high_water() {
    // A rate this slow means no byte completes during the test: the FIFO
    // only fills.
    let mut console = DebugLog::begin(19200, Peripherals::at_reset(1_000_000));
    for i in 0..128u32 {
        assert!(console.write(i as u8).is_ok());
    }
    assert_eq!(console.queued_len(), 128);
    // The poll before the 129th push would still see 128 queued bytes.
    let r = console.write(0xFF);
    assert!(matches!(r, Err(WriteError::WouldBlock)));
    // Nothing was pushed and nothing was lost.
    assert_eq!(console.pushed_bytes().len(), 128);
    assert_eq!(console.queued_len(), 128);
}

#[test]
fn adapter_pushes_every_byte() {
    let mut console = DebugLog::begin(19200, Peripherals::at_reset(4));
    assert!(console.write_str("hello world").is_ok());
    assert_eq!(console.pushed_bytes().as_slice(), b"hello world");
}

#[test]
fn adapter_loses_nothing_under_backpressure() {
    // Fill the FIFO to the high-water mark, then let the adapter retry its
    // way through: every byte must still arrive, in order.
    let mut console = DebugLog::begin(19200, Peripherals::at_reset(1_000));
    let mut expected = Vec::new();
    for i in 0..128u32 {
        assert!(console.write(i as u8).is_ok());
        expected.push(i as u8);
    }
    assert!(matches!(console.write(0xAA), Err(WriteError::WouldBlock)));
    assert!(console.write_str("overflow").is_ok());
    expected.extend_from_slice(b"overflow");
    assert_eq!(console.pushed_bytes().as_slice(), expected.as_slice());
}

#[test]
fn adapter_on_empty_text_pushes_nothing() {
    let mut console = DebugLog::begin(19200, Peripherals::at_reset(2));
    assert!(console.write_str("").is_ok());
    assert_eq!(console.pushed_bytes().len(), 0);
    assert!(console.write_line("").is_ok());
    assert_eq!(console.pushed_bytes().as_slice(), b"\n");
}

#[test]
fn write_line_appends_terminator() {
    let mut console = DebugLog::begin(19200, Peripherals::at_reset(2));
    assert!(console.write_line("OK").is_ok());
    assert_eq!(console.pushed_bytes().as_slice(), b"OK\n");
}

#[test]
fn drain_waits_until_idle() {
    let mut console = DebugLog::begin(19200, Peripherals::at_reset(3));
    assert!(console.write(b'x').is_ok());
    assert!(console.write(b'y').is_ok());
    assert!(console.queued_len() > 0);
    console.drain();
    assert_eq!(console.queued_len(), 0);
    assert!(console.is_idle());
}

#[test]
fn bounded_drain_reports_budget() {
    let mut console = DebugLog::begin(19200, Peripherals::at_reset(3));
    assert!(console.write(b'x').is_ok());
    assert!(console.write(b'y').is_ok());
    // Two queued bytes at three polls each, minus the poll the second
    // write's occupancy check already spent: five polls until idle.
    assert!(!console.drain_within(3));
    assert!(console.queued_len() > 0);
    assert!(console.drain_within(2));
    assert_eq!(console.queued_len(), 0);
    // Even an idle transmitter needs one poll to be observed idle.
    assert!(!console.drain_within(0));
    assert!(console.drain_within(1));
}

#[test]
fn drain_on_idle_console_returns() {
    let mut console = DebugLog::begin(19200, Peripherals::at_reset(5));
    console.drain();
    assert_eq!(console.queued_len(), 0);
}

#[test]
fn end_to_end_ok_line() {
    // Bring-up at 19200 on the register model, then the bytes of "OK\n"
    // must arrive as three pushes in order, and drain must leave the
    // transmitter idle.
    let mut console = DebugLog::begin(19200, Peripherals::at_reset(2));
    assert!(console.write_str("OK\n").is_ok());
    assert_eq!(console.pushed_bytes().as_slice(), &[b'O', b'K', b'\n']);
    console.drain();
    assert_eq!(console.queued_len(), 0);
    assert!(console.is_idle());
    assert_eq!(console.pushed_bytes().as_slice(), &[b'O', b'K', b'\n']);
}

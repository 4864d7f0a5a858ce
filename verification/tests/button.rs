use debug_console::ButtonMonitor;
use debug_console::DebugLog;
use debug_console::Peripherals;

#[test]
fn edge_triggered_not_level_triggered() {
    // Level sequence [low, low, high, high, low]: exactly two transition
    // events, low-to-high then high-to-low.
    let mut monitor = ButtonMonitor::new(false);
    let mut events = Vec::new();
    for level in [false, false, true, true, false] {
        if let Some(new_level) = monitor.on_sample(level) {
            events.push(new_level);
        }
    }
    assert_eq!(events.as_slice(), &[true, false]);
}

#[test]
fn repeated_level_is_quiet() {
    let mut monitor = ButtonMonitor::new(true);
    assert_eq!(monitor.on_sample(true), None);
    assert_eq!(monitor.on_sample(true), None);
    assert_eq!(monitor.on_sample(false), Some(false));
    assert_eq!(monitor.on_sample(false), None);
}

#[test]
fn monitor_logs_one_line_per_transition() {
    let mut console = DebugLog::begin(19200, Peripherals::at_reset(1));
    let mut monitor = ButtonMonitor::new(false);
    let mut outputs = Vec::new();
    for level in [false, false, true, true, false] {
        let event = monitor.monitor_step(&mut console, level).unwrap();
        if let Some(new_level) = event {
            outputs.push(new_level);
        }
    }
    assert_eq!(outputs.as_slice(), &[true, false]);
    assert_eq!(
        console.pushed_bytes().as_slice(),
        b"Button pushed.\nButton released.\n"
    );
}

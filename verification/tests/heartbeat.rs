use wifi_supervisor::heartbeat::Heartbeat;
use wifi_supervisor::level::{Level, OutputLine};
use wifi_supervisor::log::LogEvent;

#[test]
fn toggle_round_trip() {
    let mut line = OutputLine::new(Level::High);
    line.toggle();
    assert_eq!(line.level, Level::Low);
    line.toggle();
    assert_eq!(line.level, Level::High);
}

#[test]
fn heartbeat_toggles_every_period() {
    let mut hb = Heartbeat::new(Level::High, Level::High);
    let log = hb.tick();
    assert_eq!(log, LogEvent::Liveness);
    assert_eq!(hb.line_a.level, Level::Low);
    assert_eq!(hb.line_b.level, Level::Low);
    assert_eq!(hb.beats, 1);
}

#[test]
fn heartbeat_parity_over_a_run() {
    let mut hb = Heartbeat::new(Level::High, Level::Low);
    let logs = hb.run(7);
    assert_eq!(logs.len(), 7);
    assert!(logs.iter().all(|l| *l == LogEvent::Liveness));
    assert_eq!(hb.line_a.level, Level::Low);
    assert_eq!(hb.line_b.level, Level::High);
    let _ = hb.run(1);
    assert_eq!(hb.line_a.level, Level::High);
    assert_eq!(hb.line_b.level, Level::Low);
    assert_eq!(hb.beats, 8);
}

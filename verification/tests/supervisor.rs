use wifi_supervisor::log::LogEvent;
use wifi_supervisor::supervisor::{
    run_session, scan_report, started_report, Phase, SessionRecord, Supervisor, TickRecord,
};

#[test]
fn scenario_a_started_empty_scan() {
    let session = SessionRecord {
        mode_set: Ok(()),
        start: Ok(()),
        started: true,
        ticks: vec![TickRecord { started: Ok(true), scan: Ok(vec![]) }],
    };
    let (sup, logs) = run_session(session);
    assert_eq!(sup.phase, Phase::Started);
    assert_eq!(sup.scans_attempted, 1);
    assert_eq!(
        logs,
        vec![
            LogEvent::StartedReport(true),
            LogEvent::ScanStartNotice,
            LogEvent::ScanSummary(0),
        ]
    );
}

#[test]
fn scenario_b_radio_busy_start_failure() {
    let mut ticks = Vec::new();
    for _ in 0..4 {
        ticks.push(TickRecord { started: Ok(false), scan: Ok(vec![]) });
    }
    let session = SessionRecord {
        mode_set: Ok(()),
        start: Err(String::from("radio busy")),
        started: false,
        ticks,
    };
    let (sup, logs) = run_session(session);
    assert_eq!(sup.phase, Phase::Configured);
    assert_eq!(sup.scans_attempted, 0);
    assert_eq!(
        logs,
        vec![
            LogEvent::StartFailure(String::from("radio busy")),
            LogEvent::StartedReport(false),
        ]
    );
    match &logs[0] {
        LogEvent::StartFailure(message) => assert!(message.contains("radio busy")),
        other => panic!("expected a start failure, got {:?}", other),
    }
}

#[test]
fn scenario_c_two_networks_in_order() {
    let logs = scan_report(Ok(vec![String::from("Net-A"), String::from("Net-B")]));
    assert_eq!(
        logs,
        vec![
            LogEvent::ScanSummary(2),
            LogEvent::NetworkFound(String::from("Net-A")),
            LogEvent::NetworkFound(String::from("Net-B")),
        ]
    );
}

#[test]
fn never_started_never_scans() {
    let mut sup = Supervisor::new();
    let mut ticks = Vec::new();
    for i in 0..10 {
        let started = if i % 2 == 0 { Ok(false) } else { Err(String::from("not ready")) };
        ticks.push(TickRecord { started, scan: Ok(vec![String::from("never seen")]) });
    }
    let logs = sup.run_ticks(ticks);
    assert_eq!(sup.scans_attempted, 0);
    assert!(logs.is_empty());
}

#[test]
fn mixed_outcomes_only_change_logs() {
    for mode_ok in [true, false] {
        for start_ok in [true, false] {
            let session = SessionRecord {
                mode_set: if mode_ok { Ok(()) } else { Err(String::from("mode rejected")) },
                start: if start_ok { Ok(()) } else { Err(String::from("start rejected")) },
                started: start_ok,
                ticks: vec![
                    TickRecord {
                        started: Ok(true),
                        scan: Err(String::from("scan interrupted")),
                    },
                    TickRecord { started: Ok(false), scan: Ok(vec![]) },
                    TickRecord { started: Ok(true), scan: Ok(vec![String::from("Net-C")]) },
                ],
            };
            let (sup, logs) = run_session(session);
            assert_eq!(sup.scans_attempted, 2);
            let tail = &logs[logs.len() - 5..];
            assert_eq!(
                tail,
                &[
                    LogEvent::ScanStartNotice,
                    LogEvent::ScanFailure(String::from("scan interrupted")),
                    LogEvent::ScanStartNotice,
                    LogEvent::ScanSummary(1),
                    LogEvent::NetworkFound(String::from("Net-C")),
                ]
            );
        }
    }
}

#[test]
fn mode_set_failure_is_logged_and_nonfatal() {
    let mut sup = Supervisor::new();
    let logs = sup.on_mode_set(Err(String::from("invalid mode")));
    assert_eq!(sup.phase, Phase::Unconfigured);
    assert_eq!(logs, vec![LogEvent::ModeSetFailure(String::from("invalid mode"))]);
    let start_logs = sup.on_start(Ok(()));
    assert_eq!(sup.phase, Phase::Started);
    assert!(start_logs.is_empty());
}

#[test]
fn scan_failure_is_logged_and_loop_continues() {
    let mut sup = Supervisor::new();
    let ticks = vec![
        TickRecord { started: Ok(true), scan: Err(String::from("timeout")) },
        TickRecord { started: Ok(true), scan: Ok(vec![String::from("Net-D")]) },
    ];
    let logs = sup.run_ticks(ticks);
    assert_eq!(sup.scans_attempted, 2);
    assert_eq!(
        logs,
        vec![
            LogEvent::ScanStartNotice,
            LogEvent::ScanFailure(String::from("timeout")),
            LogEvent::ScanStartNotice,
            LogEvent::ScanSummary(1),
            LogEvent::NetworkFound(String::from("Net-D")),
        ]
    );
}

#[test]
fn tick_skips_without_started_reading() {
    let mut sup = Supervisor::new();
    let (attempt, logs) = sup.begin_tick(Err(String::from("bus error")));
    assert!(!attempt);
    assert!(logs.is_empty());
    assert_eq!(sup.scans_attempted, 0);
    let (attempt, logs) = sup.begin_tick(Ok(true));
    assert!(attempt);
    assert_eq!(logs, vec![LogEvent::ScanStartNotice]);
    assert_eq!(sup.scans_attempted, 1);
}

#[test]
fn fault_free_scan_cadence() {
    let mut sup = Supervisor::new();
    let mut ticks = Vec::new();
    for _ in 0..3 {
        ticks.push(TickRecord { started: Ok(true), scan: Ok(vec![]) });
    }
    let logs = sup.run_ticks(ticks);
    assert_eq!(sup.scans_attempted, 3);
    let notices = logs.iter().filter(|l| **l == LogEvent::ScanStartNotice).count();
    assert_eq!(notices, 3);
}

#[test]
fn started_report_carries_the_reading() {
    assert_eq!(started_report(true), vec![LogEvent::StartedReport(true)]);
    assert_eq!(started_report(false), vec![LogEvent::StartedReport(false)]);
}

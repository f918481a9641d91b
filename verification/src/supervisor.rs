use vstd::prelude::*;

use crate::log::LogEvent;

verus! {

/// Interval, in time-units, between two wake-ups of the supervisor's scan
/// loop.
pub const SCAN_PERIOD_UNITS: u64 = 5;

/// Configuration progress of the radio controller, as the supervisor
/// tracks it. The controller must have its mode set before it is started,
/// and scans are issued only while it reports itself started.
#[derive(Clone, Copy, Debug, PartialEq, Eq, Structural)]
pub enum Phase {
    /// No mode has been set yet.
    Unconfigured,
    /// Station mode was set; the radio is not started.
    Configured,
    /// The radio started; the scan loop is running.
    Started,
}

/// The connectivity supervisor's state. It owns the radio controller
/// exclusively; every radio operation is performed outside this crate and
/// its outcome handed back to one of the handlers below, which decide the
/// next state and the diagnostic events to emit. No outcome is fatal:
/// failures are logged and the periodic loop retries forever.
pub struct Supervisor {
    pub phase: Phase,
    /// Scans attempted so far (skipped ticks do not count).
    pub scans_attempted: u64,
}

/// A scan is attempted on a tick exactly when the controller's started
/// reading at the top of that tick is a successful `true`. A `false` or
/// failed reading skips the scan: no attempt, no scan-related log line.
pub open spec fn scan_decision(started: Result<bool, String>) -> bool {
    match started {
        Ok(b) => b,
        Err(_) => false,
    }
}

impl Supervisor {
    /// A fresh supervisor: nothing configured, no scan attempted yet.
    pub fn new() -> (sup: Supervisor)
        ensures
            sup.phase == Phase::Unconfigured,
            sup.scans_attempted == 0,
    {
        Supervisor { phase: Phase::Unconfigured, scans_attempted: 0 }
    }

    /// Handles the outcome of the one-time station-mode request. Success
    /// configures the controller; failure is logged and otherwise ignored —
    /// the supervisor proceeds regardless, since later operations will
    /// simply fail and be logged in turn.
    pub fn on_mode_set(&mut self, outcome: Result<(), String>) -> (logs: Vec<LogEvent>)
        requires
            old(self).phase == Phase::Unconfigured,
        ensures
            final(self).scans_attempted == old(self).scans_attempted,
            match outcome {
                Ok(()) => final(self).phase == Phase::Configured && logs@ =~= Seq::<
                    LogEvent,
                >::empty(),
                Err(m) => final(self).phase == Phase::Unconfigured && logs@ =~= seq![
                    LogEvent::ModeSetFailure(m),
                ],
            },
    {
        let mut logs: Vec<LogEvent> = Vec::new();
        match outcome {
            Ok(()) => {
                self.phase = Phase::Configured;
            },
            Err(m) => {
                logs.push(LogEvent::ModeSetFailure(m));
            },
        }
        logs
    }

    /// Handles the outcome of the radio start request. Success enters the
    /// started phase; failure is logged, the phase is kept, and the
    /// periodic loop will skip scans until the controller reports itself
    /// started.
    pub fn on_start(&mut self, outcome: Result<(), String>) -> (logs: Vec<LogEvent>)
        requires
            old(self).phase != Phase::Started,
        ensures
            final(self).scans_attempted == old(self).scans_attempted,
            match outcome {
                Ok(()) => final(self).phase == Phase::Started && logs@ =~= Seq::<
                    LogEvent,
                >::empty(),
                Err(m) => final(self).phase == old(self).phase && logs@ =~= seq![
                    LogEvent::StartFailure(m),
                ],
            },
    {
        let mut logs: Vec<LogEvent> = Vec::new();
        match outcome {
            Ok(()) => {
                self.phase = Phase::Started;
            },
            Err(m) => {
                logs.push(LogEvent::StartFailure(m));
            },
        }
        logs
    }

    /// The top of one wake-up of the scan loop: decides from the
    /// controller's started reading whether to attempt a scan this tick.
    /// An attempt is announced by the scan-start notice and counted; a
    /// skipped tick is silent — a not-started reading is a no-op, not an
    /// error.
    pub fn begin_tick(&mut self, started: Result<bool, String>) -> (r: (bool, Vec<LogEvent>))
        requires
            old(self).scans_attempted < u64::MAX,
        ensures
            final(self).phase == old(self).phase,
            r.0 == scan_decision(started),
            r.0 ==> final(self).scans_attempted == old(self).scans_attempted + 1 && r.1@ =~= seq![
                LogEvent::ScanStartNotice,
            ],
            !r.0 ==> final(self).scans_attempted == old(self).scans_attempted && r.1@ =~= Seq::<
                LogEvent,
            >::empty(),
    {
        let attempt = match started {
            Ok(b) => b,
            Err(_) => false,
        };
        let mut logs: Vec<LogEvent> = Vec::new();
        if attempt {
            self.scans_attempted = self.scans_attempted + 1;
            logs.push(LogEvent::ScanStartNotice);
        }
        (attempt, logs)
    }
}

/// The log events of one finished scan: on success, a summary carrying the
/// count of discovered networks, then one event per identifier in the order
/// the scan returned them; on failure, the single failure event.
pub open spec fn scan_report_logs(outcome: Result<Vec<String>, String>) -> Seq<LogEvent> {
    match outcome {
        Ok(nets) => seq![LogEvent::ScanSummary(nets@.len() as usize)] + Seq::new(
            nets@.len(),
            |i: int| LogEvent::NetworkFound(nets@[i]),
        ),
        Err(m) => seq![LogEvent::ScanFailure(m)],
    }
}

/// Turns one finished scan's outcome into its log events, exactly
/// [`scan_report_logs`].
pub fn scan_report(outcome: Result<Vec<String>, String>) -> (logs: Vec<LogEvent>)
    ensures
        logs@ =~= scan_report_logs(outcome),
{
    match outcome {
        Ok(nets) => {
            let mut logs: Vec<LogEvent> = Vec::new();
            logs.push(LogEvent::ScanSummary(nets.len()));
            let mut i: usize = 0;
            while i < nets.len()
                invariant
                    i <= nets@.len(),
                    logs@.len() == 1 + i,
                    logs@[0] == LogEvent::ScanSummary(nets@.len() as usize),
                    forall|j: int| 0 <= j < i ==> logs@[1 + j] == LogEvent::NetworkFound(nets@[j]),
                decreases nets@.len() - i,
            {
                let name = nets[i].clone();
                logs.push(LogEvent::NetworkFound(name));
                i = i + 1;
            }
            logs
        },
        Err(m) => {
            let mut logs: Vec<LogEvent> = Vec::new();
            logs.push(LogEvent::ScanFailure(m));
            logs
        },
    }
}

/// The started-state report emitted once after the start attempt.
pub fn started_report(started: bool) -> (logs: Vec<LogEvent>)
    ensures
        logs@ =~= seq![LogEvent::StartedReport(started)],
{
    let mut logs: Vec<LogEvent> = Vec::new();
    logs.push(LogEvent::StartedReport(started));
    logs
}

/// What the controller did during one wake-up of the scan loop: the
/// started reading taken at the top of the tick, and the outcome the radio
/// would give a scan. The scan outcome is consulted only on ticks that
/// attempt one.
pub struct TickRecord {
    pub started: Result<bool, String>,
    pub scan: Result<Vec<String>, String>,
}

/// The log events of one tick: nothing on a skipped tick; the scan-start
/// notice followed by the scan's report on an attempting tick.
pub open spec fn tick_logs(t: TickRecord) -> Seq<LogEvent> {
    if scan_decision(t.started) {
        seq![LogEvent::ScanStartNotice] + scan_report_logs(t.scan)
    } else {
        Seq::<LogEvent>::empty()
    }
}

/// How many ticks of `ts` attempt a scan.
pub open spec fn scan_attempts(ts: Seq<TickRecord>) -> nat
    decreases ts.len(),
{
    if ts.len() == 0 {
        0
    } else {
        (if scan_decision(ts[0].started) {
            1nat
        } else {
            0nat
        }) + scan_attempts(ts.skip(1))
    }
}

/// The log events of a burst of ticks, in order.
pub open spec fn run_logs(ts: Seq<TickRecord>) -> Seq<LogEvent>
    decreases ts.len(),
{
    if ts.len() == 0 {
        Seq::<LogEvent>::empty()
    } else {
        tick_logs(ts[0]) + run_logs(ts.skip(1))
    }
}

impl Supervisor {
    /// Runs the scan loop over a finite burst of ticks. Whatever the
    /// controller's outcomes — success or failure in any combination — the
    /// loop runs every tick to completion without panicking and without
    /// touching the phase: the outcomes change only which log events are
    /// emitted, and those exactly as [`run_logs`] says.
    pub fn run_ticks(&mut self, ticks: Vec<TickRecord>) -> (logs: Vec<LogEvent>)
        requires
            old(self).scans_attempted + ticks@.len() <= u64::MAX,
        ensures
            final(self).phase == old(self).phase,
            final(self).scans_attempted == old(self).scans_attempted + scan_attempts(ticks@),
            logs@ =~= run_logs(ticks@),
    {
        let ghost all = ticks@;
        let mut ticks = ticks;
        let mut logs: Vec<LogEvent> = Vec::new();
        while ticks.len() > 0
            invariant
                self.phase == old(self).phase,
                old(self).scans_attempted <= self.scans_attempted,
                self.scans_attempted + ticks@.len() <= u64::MAX,
                scan_attempts(all) == self.scans_attempted - old(self).scans_attempted
                    + scan_attempts(ticks@),
                run_logs(all) =~= logs@ + run_logs(ticks@),
            decreases ticks@.len(),
        {
            let ghost pre = ticks@;
            let t = ticks.remove(0);
            proof {
                assert(pre.skip(1) =~= ticks@);
                assert(pre[0] == t);
            }
            let TickRecord { started, scan } = t;
            let (attempt, mut tick_events) = self.begin_tick(started);
            if attempt {
                let mut report = scan_report(scan);
                tick_events.append(&mut report);
            }
            proof {
                assert(tick_events@ =~= tick_logs(t));
            }
            logs.append(&mut tick_events);
            proof {
                assert(run_logs(pre) =~= tick_logs(t) + run_logs(ticks@));
                assert(run_logs(all) =~= logs@ + run_logs(ticks@));
            }
        }
        logs
    }
}

/// The outcomes a whole supervisor session consumes: the one-time mode-set
/// and start attempts, the started reading reported after them, and one
/// record per wake-up of the scan loop.
pub struct SessionRecord {
    pub mode_set: Result<(), String>,
    pub start: Result<(), String>,
    pub started: bool,
    pub ticks: Vec<TickRecord>,
}

/// The phase a session ends in: started when the start attempt succeeded,
/// else configured when the mode-set succeeded, else unconfigured.
pub open spec fn session_phase(mode_set: Result<(), String>, start: Result<(), String>) -> Phase {
    match start {
        Ok(_) => Phase::Started,
        Err(_) => match mode_set {
            Ok(_) => Phase::Configured,
            Err(_) => Phase::Unconfigured,
        },
    }
}

/// The log events of a whole session, in emission order: a failure event
/// per failed one-time attempt, the started report, then the scan loop's
/// events.
pub open spec fn session_logs(s: SessionRecord) -> Seq<LogEvent> {
    (match s.mode_set {
        Ok(_) => Seq::<LogEvent>::empty(),
        Err(m) => seq![LogEvent::ModeSetFailure(m)],
    }) + (match s.start {
        Ok(_) => Seq::<LogEvent>::empty(),
        Err(m) => seq![LogEvent::StartFailure(m)],
    }) + seq![LogEvent::StartedReport(s.started)] + run_logs(s.ticks@)
}

/// One whole supervisor session over a finite burst of ticks. For every
/// combination of operation outcomes it runs to completion without
/// panicking; the outcomes decide only the final phase, the attempt count
/// and which log events are emitted — those exactly as [`session_logs`]
/// says.
pub fn run_session(s: SessionRecord) -> (r: (Supervisor, Vec<LogEvent>))
    requires
        s.ticks@.len() <= u64::MAX,
    ensures
        r.0.phase == session_phase(s.mode_set, s.start),
        r.0.scans_attempted == scan_attempts(s.ticks@),
        r.1@ =~= session_logs(s),
{
    let SessionRecord { mode_set, start, started, ticks } = s;
    let mut sup = Supervisor::new();
    let mut logs = sup.on_mode_set(mode_set);
    let mut start_logs = sup.on_start(start);
    logs.append(&mut start_logs);
    let mut report = started_report(started);
    logs.append(&mut report);
    let mut loop_logs = sup.run_ticks(ticks);
    logs.append(&mut loop_logs);
    proof {
        assert(logs@ =~= session_logs(s));
    }
    (sup, logs)
}

/// The number of supervisor wake-ups that fit in `t` time-units: one per
/// scan period.
pub open spec fn supervisor_wakeups(t: nat) -> nat {
    t / (SCAN_PERIOD_UNITS as nat)
}

/// Idempotence of the skip branch: over any burst of ticks in which the
/// controller never reports itself started, no scan is attempted and no
/// log event at all — in particular no scan-related one — is emitted,
/// however long the burst.
pub proof fn lemma_never_started_never_scans(ts: Seq<TickRecord>)
    requires
        forall|i: int| 0 <= i < ts.len() ==> !scan_decision(#[trigger] ts[i].started),
    ensures
        scan_attempts(ts) == 0,
        run_logs(ts) =~= Seq::<LogEvent>::empty(),
    decreases ts.len(),
{
    if ts.len() > 0 {
        assert(forall|i: int|
            0 <= i < ts.skip(1).len() ==> !scan_decision(#[trigger] ts.skip(1)[i].started));
        lemma_never_started_never_scans(ts.skip(1));
    }
}

/// On a fault-free controller every tick's started reading is `true`, so
/// every tick attempts a scan.
pub proof fn lemma_all_started_all_scan(ts: Seq<TickRecord>)
    requires
        forall|i: int| 0 <= i < ts.len() ==> scan_decision(#[trigger] ts[i].started),
    ensures
        scan_attempts(ts) == ts.len(),
    decreases ts.len(),
{
    if ts.len() > 0 {
        assert(forall|i: int|
            0 <= i < ts.skip(1).len() ==> scan_decision(#[trigger] ts.skip(1)[i].started));
        lemma_all_started_all_scan(ts.skip(1));
    }
}

/// Liveness under a fault-free controller: the loop wakes once per scan
/// period, so a burst covering `t` time-units makes exactly `t / 5` scan
/// attempts — in particular within one of `t / 5` either way — and at
/// least one attempt occurs as soon as a full scan period has elapsed.
pub proof fn lemma_fault_free_liveness(ts: Seq<TickRecord>, t: nat)
    requires
        forall|i: int| 0 <= i < ts.len() ==> scan_decision(#[trigger] ts[i].started),
        ts.len() == supervisor_wakeups(t),
    ensures
        scan_attempts(ts) == t / (SCAN_PERIOD_UNITS as nat),
        t >= SCAN_PERIOD_UNITS ==> scan_attempts(ts) >= 1,
{
    lemma_all_started_all_scan(ts);
    assert(t >= 5 ==> t / 5nat >= 1) by (nonlinear_arith);
}

} // verus!

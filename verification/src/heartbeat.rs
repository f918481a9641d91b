use vstd::prelude::*;

use crate::level::{Level, OutputLine};
use crate::log::LogEvent;

verus! {

/// Interval, in time-units, between two heartbeat wake-ups.
pub const HEARTBEAT_PERIOD_UNITS: u64 = 1;

/// The heartbeat task's state: the two indicator lines it owns
/// exclusively, and the count of completed periods. It runs forever,
/// independent of network state; a finite burst of periods is modelled by
/// [`Heartbeat::run`].
pub struct Heartbeat {
    pub line_a: OutputLine,
    pub line_b: OutputLine,
    pub beats: u64,
}

impl Heartbeat {
    /// A fresh heartbeat owning two lines at the given initial levels.
    pub fn new(a: Level, b: Level) -> (r: Heartbeat)
        ensures
            r.line_a.level == a,
            r.line_b.level == b,
            r.beats == 0,
    {
        Heartbeat { line_a: OutputLine::new(a), line_b: OutputLine::new(b), beats: 0 }
    }

    /// One heartbeat period: emits the liveness message and toggles every
    /// owned output line exactly once. Toggling a configured line cannot
    /// fail, so neither can a period. The caller suspends for
    /// [`HEARTBEAT_PERIOD_UNITS`] time-units between calls.
    pub fn tick(&mut self) -> (log: LogEvent)
        requires
            old(self).beats < u64::MAX,
        ensures
            final(self).line_a.level == old(self).line_a.level.flip(),
            final(self).line_b.level == old(self).line_b.level.flip(),
            final(self).beats == old(self).beats + 1,
            log == LogEvent::Liveness,
    {
        self.line_a.toggle();
        self.line_b.toggle();
        self.beats = self.beats + 1;
        LogEvent::Liveness
    }

    /// `n` consecutive heartbeat periods: each line toggles exactly `n`
    /// times and one liveness message is emitted per period.
    pub fn run(&mut self, n: u64) -> (logs: Vec<LogEvent>)
        requires
            old(self).beats + n <= u64::MAX,
        ensures
            final(self).beats == old(self).beats + n,
            final(self).line_a.level == old(self).line_a.level.flip_n(n as nat),
            final(self).line_b.level == old(self).line_b.level.flip_n(n as nat),
            logs@.len() == n,
            forall|i: int| 0 <= i < n ==> logs@[i] == LogEvent::Liveness,
    {
        let mut logs: Vec<LogEvent> = Vec::new();
        let mut k: u64 = 0;
        while k < n
            invariant
                k <= n,
                old(self).beats + n <= u64::MAX,
                self.beats == old(self).beats + k,
                self.line_a.level == old(self).line_a.level.flip_n(k as nat),
                self.line_b.level == old(self).line_b.level.flip_n(k as nat),
                logs@.len() == k,
                forall|i: int| 0 <= i < k ==> logs@[i] == LogEvent::Liveness,
            decreases n - k,
        {
            let log = self.tick();
            logs.push(log);
            k = k + 1;
        }
        logs
    }
}

/// The number of heartbeat wake-ups that fit in `t` time-units.
pub open spec fn heartbeat_wakeups(t: nat) -> nat {
    t / (HEARTBEAT_PERIOD_UNITS as nat)
}

/// Cadence of the heartbeat: over `t` time-units a line toggles once per
/// period — `t` times in all — and ends opposite its initial level exactly
/// when that count is odd.
pub proof fn lemma_heartbeat_cadence(l: Level, t: nat)
    ensures
        heartbeat_wakeups(t) == t,
        (l.flip_n(heartbeat_wakeups(t)) == l) <==> (t % 2 == 0),
        (l.flip_n(heartbeat_wakeups(t)) == l.flip()) <==> (t % 2 == 1),
{
    assert(t / 1nat == t);
    crate::level::lemma_flip_parity(l, t);
}

} // verus!

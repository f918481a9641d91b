use vstd::prelude::*;

verus! {

/// One event on the diagnostic log stream, the only channel on which the
/// firmware reports anything. Rendering an event to leveled text is a
/// concern of the transport outside this crate; the contracts here speak
/// of the events themselves.
#[derive(Clone, Debug, PartialEq, Eq)]
pub enum LogEvent {
    /// The scheduler and platform came up (bootstrap notice).
    SchedulerReady,
    /// Setting the radio to station mode failed; the message says why.
    ModeSetFailure(String),
    /// Starting the radio failed; the message says why.
    StartFailure(String),
    /// Whether the controller reports the radio as started.
    StartedReport(bool),
    /// A network scan is about to be issued.
    ScanStartNotice,
    /// A scan finished and discovered this many networks.
    ScanSummary(usize),
    /// The identifier of one discovered network.
    NetworkFound(String),
    /// A scan was attempted and failed; the message says why.
    ScanFailure(String),
    /// Periodic heartbeat liveness message.
    Liveness,
}

/// True of the events that only a scan attempt can produce.
pub open spec fn is_scan_event(e: LogEvent) -> bool {
    match e {
        LogEvent::ScanStartNotice => true,
        LogEvent::ScanSummary(_) => true,
        LogEvent::NetworkFound(_) => true,
        LogEvent::ScanFailure(_) => true,
        _ => false,
    }
}

} // verus!

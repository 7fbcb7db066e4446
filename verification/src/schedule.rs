//! Scheduler decisions, kept apart from the timers and the network.
//!
//! Two recurring jobs exist: report generation and storage-history
//! refresh. A fire moves a job to `Dispatching`; settling the dispatch
//! outcome always returns it to `Idle` — failures are reported to the
//! health sink, never held as a distinct error state, and never cancel
//! future ticks. The report job's window is `[now - interval_hours, now)`.
//!
//! The surrounding runtime performs the timers and the self-loopback
//! call; it hands outcomes back to `settle_dispatch` and sends the ping
//! this module decides on. Overlapping fires of the same job are not
//! guarded against: a fire dispatches regardless of the job's state, a
//! documented gap kept as-is.

use vstd::prelude::*;

use crate::text::trim_trailing_slashes;
use crate::window::TimeWindow;

verus! {

/// What a health-sink notification reports.
#[derive(Clone, Copy, Debug, PartialEq, Eq, Structural)]
pub enum HealthStatus {
    Start,
    Success,
    Fail,
}

/// The two recurring jobs.
#[derive(Clone, Copy, Debug, PartialEq, Eq, Structural)]
pub enum JobKind {
    Report,
    StorageRefresh,
}

/// A job is idle between fires and dispatching while a tick runs.
#[derive(Clone, Copy, Debug, PartialEq, Eq, Structural)]
pub enum JobState {
    Idle,
    Dispatching,
}

/// How one dispatch round trip ended.
#[derive(Clone, Copy, Debug, PartialEq, Eq, Structural)]
pub enum DispatchOutcome {
    /// The loopback call was answered with a success status.
    Delivered,
    /// The call was answered with a non-success status.
    RejectedStatus,
    /// The call itself failed (connection refused, timeout).
    ConnectionFailed,
}

/// A timer fire moves the job to `Dispatching` and the dispatch always
/// proceeds, whatever state the job was in: overlapping fires are not
/// prevented.
pub fn fire_job(_state: JobState) -> (r: JobState)
    ensures
        r == JobState::Dispatching,
{
    JobState::Dispatching
}

/// Settling a dispatch always returns the job to `Idle` — a failure is
/// terminal for that tick only — and decides the health ping: success
/// exactly when the round trip was delivered.
pub fn settle_dispatch(outcome: DispatchOutcome) -> (r: (JobState, HealthStatus))
    ensures
        r.0 == JobState::Idle,
        r.1 == (if outcome == DispatchOutcome::Delivered {
            HealthStatus::Success
        } else {
            HealthStatus::Fail
        }),
{
    match outcome {
        DispatchOutcome::Delivered => (JobState::Idle, HealthStatus::Success),
        DispatchOutcome::RejectedStatus => (JobState::Idle, HealthStatus::Fail),
        DispatchOutcome::ConnectionFailed => (JobState::Idle, HealthStatus::Fail),
    }
}

/// The report window for a tick firing at `now`: the configured number of
/// hours back from `now`. The bounds only keep the multiplication and the
/// subtraction inside `i64`.
pub fn report_window(now: i64, interval_hours: i64) -> (w: TimeWindow)
    requires
        0 <= interval_hours,
        interval_hours * 3600 <= i64::MAX,
        i64::MIN + interval_hours * 3600 <= now,
    ensures
        w.start == now - interval_hours * 3600,
        w.end == now,
{
    TimeWindow { start: now - interval_hours * 3600, end: now }
}

/// The health-sink URL for a status: `/start` or `/fail` appended to the
/// base with its trailing slashes trimmed; a success posts to the base
/// itself, unchanged.
pub open spec fn spec_health_url(base: Seq<char>, status: HealthStatus) -> Seq<char> {
    match status {
        HealthStatus::Start => trim_trailing_slashes(base) + "/start"@,
        HealthStatus::Fail => trim_trailing_slashes(base) + "/fail"@,
        HealthStatus::Success => base,
    }
}

/// Builds the health-sink URL for a status.
pub fn build_health_url(base: &str, status: HealthStatus) -> (r: String)
    ensures
        r@ == spec_health_url(base@, status),
{
    match status {
        HealthStatus::Start => {
            let mut s = crate::text::without_trailing_slashes(base);
            s.append("/start");
            s
        },
        HealthStatus::Fail => {
            let mut s = crate::text::without_trailing_slashes(base);
            s.append("/fail");
            s
        },
        HealthStatus::Success => String::from_str(base),
    }
}

/// The default ping body of a status, used when no message is given.
pub open spec fn default_health_body(status: HealthStatus) -> Seq<char> {
    match status {
        HealthStatus::Start => "Start"@,
        HealthStatus::Success => "Success"@,
        HealthStatus::Fail => "Failure"@,
    }
}

/// The ping body: the given message, or the status's default.
pub fn health_body(status: HealthStatus, message: Option<&str>) -> (r: String)
    ensures
        match message {
            Some(m) => r@ == m@,
            None => r@ == default_health_body(status),
        },
{
    match message {
        Some(m) => String::from_str(m),
        None => match status {
            HealthStatus::Start => String::from_str("Start"),
            HealthStatus::Success => String::from_str("Success"),
            HealthStatus::Fail => String::from_str("Failure"),
        },
    }
}

/// The persisted artifact's path: `dir/report-<stamp>.html`. With a
/// sortable timestamp for the stamp, lexical order matches creation
/// order, which keeps retention pruning consistent.
pub fn report_filename(dir: &str, stamp: &str) -> (r: String)
    ensures
        r@ == dir@ + "/report-"@ + stamp@ + ".html"@,
{
    let mut s = String::from_str(dir);
    s.append("/report-");
    s.append(stamp);
    s.append(".html");
    proof {
        assert(s@ =~= dir@ + "/report-"@ + stamp@ + ".html"@);
    }
    s
}

} // verus!

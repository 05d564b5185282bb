//! How a health check of a spawned server ended, and what to tell the user
//! when it did not end well.

use vstd::prelude::*;
use vstd::string::StringExecFns;

verus! {

/// Seconds that a spawned server is given to report healthy, counted from
/// the moment the check is started.
pub const HEALTH_CHECK_TIMEOUT_SECS: u64 = 30;

/// The ways in which the health check of a spawned server can end.
#[derive(Debug, PartialEq, Eq)]
pub enum HealthCheckOutcome {
    /// The server answered and is healthy.
    Healthy,
    /// The server reported a failure of its own; the payload is its report.
    Rejected(String),
    /// The check itself broke down; the payload describes the fault.
    TaskFailed(String),
    /// No definite answer came within the time allowed.
    TimedOut,
}

/// Mathematical content of a [`HealthCheckOutcome`].
pub enum HealthCheckOutcomeView {
    Healthy,
    Rejected(Seq<char>),
    TaskFailed(Seq<char>),
    TimedOut,
}

impl View for HealthCheckOutcome {
    type V = HealthCheckOutcomeView;

    open spec fn view(&self) -> HealthCheckOutcomeView {
        match self {
            HealthCheckOutcome::Healthy => HealthCheckOutcomeView::Healthy,
            HealthCheckOutcome::Rejected(report) => HealthCheckOutcomeView::Rejected(report@),
            HealthCheckOutcome::TaskFailed(fault) => HealthCheckOutcomeView::TaskFailed(fault@),
            HealthCheckOutcome::TimedOut => HealthCheckOutcomeView::TimedOut,
        }
    }
}

/// How a health check ended, told from what came back within the time
/// allowed.  `answer` is `None` when nothing came back in time; otherwise it
/// holds the fault of a check that broke down, or else what the server
/// said of itself: healthy, or a report of what is wrong.
pub open spec fn classified(answer: Option<Result<Result<(), Seq<char>>, Seq<char>>>)
    -> HealthCheckOutcomeView {
    match answer {
        None => HealthCheckOutcomeView::TimedOut,
        Some(Err(fault)) => HealthCheckOutcomeView::TaskFailed(fault),
        Some(Ok(Err(report))) => HealthCheckOutcomeView::Rejected(report),
        Some(Ok(Ok(()))) => HealthCheckOutcomeView::Healthy,
    }
}

/// Content of what came back from a health check.
pub open spec fn answer_view(answer: Option<Result<Result<(), String>, String>>) -> Option<
    Result<Result<(), Seq<char>>, Seq<char>>,
> {
    match answer {
        None => None,
        Some(Err(fault)) => Some(Err(fault@)),
        Some(Ok(Err(report))) => Some(Ok(Err(report@))),
        Some(Ok(Ok(()))) => Some(Ok(Ok(()))),
    }
}

/// Why a health check that ended with `outcome` counts as failed, or `None`
/// if it succeeded.
pub open spec fn failure_reason_text(outcome: HealthCheckOutcomeView) -> Option<Seq<char>> {
    match outcome {
        HealthCheckOutcomeView::Healthy => None,
        HealthCheckOutcomeView::Rejected(report) => Some(report),
        HealthCheckOutcomeView::TaskFailed(fault) => Some("Health check task failed: "@ + fault),
        HealthCheckOutcomeView::TimedOut => Some("Health check timed out"@),
    }
}

/// The message published when startup fails for `reason`, with the recent
/// log output `logs` attached.
pub open spec fn startup_failure_text(reason: Seq<char>, logs: Seq<char>) -> Seq<char> {
    "Failed to spawn OpenCode Server ("@ + reason + "). Logs:\n"@ + logs
}

impl HealthCheckOutcome {
    /// Tells how a health check ended from what came back within the time
    /// allowed, if anything did.
    pub fn classify(answer: Option<Result<Result<(), String>, String>>) -> (outcome:
        HealthCheckOutcome)
        ensures
            outcome@ == classified(answer_view(answer)),
    {
        match answer {
            None => HealthCheckOutcome::TimedOut,
            Some(Err(fault)) => HealthCheckOutcome::TaskFailed(fault),
            Some(Ok(Err(report))) => HealthCheckOutcome::Rejected(report),
            Some(Ok(Ok(()))) => HealthCheckOutcome::Healthy,
        }
    }

    /// Whether the check succeeded.
    pub fn is_healthy(&self) -> (healthy: bool)
        ensures
            healthy == (self@ is Healthy),
            healthy == (failure_reason_text(self@) is None),
    {
        match self {
            HealthCheckOutcome::Healthy => true,
            _ => false,
        }
    }

    /// The reason for which the check counts as failed, or `None` if it
    /// succeeded.
    pub fn failure_reason(&self) -> (reason: Option<String>)
        ensures
            match reason {
                Some(text) => failure_reason_text(self@) == Some(text@),
                None => failure_reason_text(self@) is None,
            },
    {
        match self {
            HealthCheckOutcome::Healthy => None,
            HealthCheckOutcome::Rejected(report) => Some(report.clone()),
            HealthCheckOutcome::TaskFailed(fault) => {
                let mut text = String::from_str("Health check task failed: ");
                text.append(fault.as_str());
                Some(text)
            },
            HealthCheckOutcome::TimedOut => Some(String::from_str("Health check timed out")),
        }
    }
}

/// Builds the message published when startup fails for `reason`, with the
/// recent log output `logs` attached.
pub fn startup_failure_message(reason: &str, logs: &str) -> (message: String)
    ensures
        message@ == startup_failure_text(reason@, logs@),
{
    let mut message = String::from_str("Failed to spawn OpenCode Server (");
    message.append(reason);
    message.append("). Logs:\n");
    message.append(logs);
    message
}

} // verus!

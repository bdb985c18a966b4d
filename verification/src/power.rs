//! The power-state controller: a state machine that drives a stopped resource
//! to a running-and-healthy state by issuing one start request and then
//! polling combined health on a fixed interval until every check passes or
//! the poll budget runs out. The caller performs the provider calls and feeds
//! each outcome back in; every decision is taken here.

use vstd::prelude::*;

use crate::errors::AppError;

verus! {

/// Power state of a resource, as normalized from the provider's lifecycle
/// state: `Running` iff the provider reports a running lifecycle state.
#[derive(Debug, Clone, Copy, PartialEq, Eq, Structural)]
pub enum PowerState {
    Stopped,
    Starting,
    Running,
}

/// One of the provider's two independent readiness checks.
#[derive(Debug, Clone, Copy, PartialEq, Eq, Structural)]
pub enum CheckStatus {
    Pending,
    Passed,
}

/// Combined health, recomputed on each poll.
#[derive(Debug, Clone, Copy, PartialEq, Eq, Structural)]
pub struct HealthStatus {
    pub power: PowerState,
    pub system_check: CheckStatus,
    pub instance_check: CheckStatus,
}

/// One poll response as the provider reported it: any field may be missing.
/// A missing field means "not yet satisfied", never an error.
#[derive(Debug, Clone, Copy)]
pub struct PollReport {
    pub power: Option<PowerState>,
    pub system_check: Option<CheckStatus>,
    pub instance_check: Option<CheckStatus>,
}

/// The controller's state. `Polling` counts the poll ticks that are still
/// allowed before the controller gives up.
#[derive(Debug, Clone, Copy, PartialEq, Eq, Structural)]
pub enum ControllerState {
    /// A start request must be issued before polling can begin.
    StartRequested,
    /// Health is being polled; `ticks_remaining` polls are still allowed.
    Polling { ticks_remaining: u64 },
    /// Terminal success: power is on and both checks passed.
    Healthy,
    /// Terminal failure: the poll budget was exhausted.
    TimedOut,
}

/// The terminal condition: power on and both readiness checks passed.
pub open spec fn is_healthy(h: HealthStatus) -> bool {
    h.power == PowerState::Running && h.system_check == CheckStatus::Passed
        && h.instance_check == CheckStatus::Passed
}

/// How a raw poll response reads as health: a missing field counts as
/// "not yet satisfied".
pub open spec fn report_health(r: PollReport) -> HealthStatus {
    HealthStatus {
        power: match r.power {
            Some(p) => p,
            None => PowerState::Stopped,
        },
        system_check: match r.system_check {
            Some(c) => c,
            None => CheckStatus::Pending,
        },
        instance_check: match r.instance_check {
            Some(c) => c,
            None => CheckStatus::Pending,
        },
    }
}

/// A poll response satisfies the controller iff all three conditions hold
/// simultaneously in it.
pub open spec fn report_satisfied(r: PollReport) -> bool {
    is_healthy(report_health(r))
}

/// What one poll tick does to a polling controller: a satisfying response
/// ends the polling at once; anything else costs one tick of the budget.
pub open spec fn poll_next(s: ControllerState, report: Option<PollReport>) -> ControllerState {
    let satisfied = match report {
        Some(rep) => report_satisfied(rep),
        None => false,
    };
    if satisfied {
        ControllerState::Healthy
    } else if s->ticks_remaining > 1 {
        ControllerState::Polling { ticks_remaining: (s->ticks_remaining - 1) as u64 }
    } else {
        ControllerState::TimedOut
    }
}

/// What the outcome of the start request does to the controller: acceptance
/// opens the polling phase with the full budget; rejection is fatal.
pub open spec fn start_result_next(
    outcome: Result<(), String>,
    poll_budget: u64,
) -> Result<ControllerState, AppError> {
    match outcome {
        Ok(u) => Ok(ControllerState::Polling { ticks_remaining: poll_budget }),
        Err(m) => Err(AppError::StartFailed(m)),
    }
}

/// Reads a raw poll response as a complete health status, treating each
/// missing field as its not-yet-satisfied value.
pub fn normalize_report(r: &PollReport) -> (h: HealthStatus)
    ensures
        h == report_health(*r),
{
    HealthStatus {
        power: match r.power {
            Some(p) => p,
            None => PowerState::Stopped,
        },
        system_check: match r.system_check {
            Some(c) => c,
            None => CheckStatus::Pending,
        },
        instance_check: match r.instance_check {
            Some(c) => c,
            None => CheckStatus::Pending,
        },
    }
}

/// Decides how `ensure_running` begins. A resource that is already running
/// is healthy at once: no start request is issued and no poll tick is spent.
/// Any other power state requires a start request first.
pub fn begin_ensure_running(power: PowerState) -> (s: ControllerState)
    ensures
        power == PowerState::Running ==> s == ControllerState::Healthy,
        power != PowerState::Running ==> s == ControllerState::StartRequested,
{
    match power {
        PowerState::Running => ControllerState::Healthy,
        _ => ControllerState::StartRequested,
    }
}

/// Consumes the outcome of the single start request. Acceptance opens the
/// polling phase with the full poll budget; rejection is fatal (`StartFailed`,
/// no retry), carrying the provider's message.
pub fn on_start_result(
    s: &ControllerState,
    outcome: Result<(), String>,
    poll_budget: u64,
) -> (r: Result<ControllerState, AppError>)
    requires
        *s is StartRequested,
        poll_budget >= 1,
    ensures
        r == start_result_next(outcome, poll_budget),
{
    match outcome {
        Ok(_) => Ok(ControllerState::Polling { ticks_remaining: poll_budget }),
        Err(m) => Err(AppError::StartFailed(m)),
    }
}

/// Consumes one poll tick. A response in which all three conditions hold
/// ends the polling at once (`Healthy`); anything else — an unsatisfied
/// response or a transient query failure (`None`) — is tolerated silently and
/// costs one tick, until the budget is exhausted (`TimedOut`).
pub fn on_poll(s: &ControllerState, report: Option<PollReport>) -> (next: ControllerState)
    requires
        *s is Polling,
        s->ticks_remaining >= 1,
    ensures
        next == poll_next(*s, report),
{
    let ticks_remaining = match s {
        ControllerState::Polling { ticks_remaining } => *ticks_remaining,
        _ => 1,
    };
    let satisfied = match report {
        Some(rep) => {
            let h = normalize_report(&rep);
            h.power == PowerState::Running && h.system_check == CheckStatus::Passed
                && h.instance_check == CheckStatus::Passed
        },
        None => false,
    };
    if satisfied {
        ControllerState::Healthy
    } else if ticks_remaining > 1 {
        ControllerState::Polling { ticks_remaining: ticks_remaining - 1 }
    } else {
        ControllerState::TimedOut
    }
}

/// Once healthy, the resource is re-queried for a possibly newly assigned
/// address. A refreshed, non-empty address replaces the known one; an empty
/// or missing one keeps the known address and raises a non-fatal warning.
pub fn refresh_address(current: Vec<u8>, refreshed: Option<Vec<u8>>) -> (r: (Vec<u8>, bool))
    ensures
        ({
            match refreshed {
                Some(a) => if a@.len() > 0 {
                    r.0@ == a@ && !r.1
                } else {
                    r.0@ == current@ && r.1
                },
                None => r.0@ == current@ && r.1,
            }
        }),
{
    match refreshed {
        Some(a) => {
            if a.len() > 0 {
                (a, false)
            } else {
                (current, true)
            }
        },
        None => (current, true),
    }
}

/// Whether a stop request must be issued for the resource.
#[derive(Debug, Clone, Copy, PartialEq, Eq, Structural)]
pub enum StopDecision {
    /// The resource runs: request a stop.
    RequestStop,
    /// The resource is not in a state to be stopped: nothing to do.
    AlreadyStopped,
}

/// A stop request is issued exactly for a running resource.
pub fn plan_stop(power: PowerState) -> (d: StopDecision)
    ensures
        d == StopDecision::RequestStop <==> power == PowerState::Running,
{
    match power {
        PowerState::Running => StopDecision::RequestStop,
        _ => StopDecision::AlreadyStopped,
    }
}

/// Reads the outcome of the stop request: a provider rejection is fatal
/// (`CommandFailed`) with the provider's message.
pub fn on_stop_result(outcome: Result<(), String>) -> (r: Result<(), AppError>)
    ensures
        outcome is Ok ==> r is Ok,
        outcome matches Err(m) ==> (r matches Err(e) && e matches AppError::CommandFailed(pm)
            && pm == m),
{
    match outcome {
        Ok(_) => Ok(()),
        Err(m) => Err(AppError::CommandFailed(m)),
    }
}

} // verus!

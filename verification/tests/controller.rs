use ec2_connector::errors::AppError;
use ec2_connector::locator::{resolve, InstanceDescription, LifecycleState, ResourceRef};
use ec2_connector::power::{
    begin_ensure_running, normalize_report, on_poll, on_start_result, on_stop_result, plan_stop,
    refresh_address, CheckStatus, ControllerState, PollReport, PowerState, StopDecision,
};

fn instance(id: &str, dns: &str, lifecycle: LifecycleState) -> InstanceDescription {
    InstanceDescription {
        instance_id: id.as_bytes().to_vec(),
        public_dns: dns.as_bytes().to_vec(),
        lifecycle,
    }
}

fn report(
    power: Option<PowerState>,
    system_check: Option<CheckStatus>,
    instance_check: Option<CheckStatus>,
) -> PollReport {
    PollReport { power, system_check, instance_check }
}

#[test]
fn resolve_with_no_matches_is_not_found() {
    let r = resolve(&b"dev".to_vec(), Ok(Vec::new()));
    match r {
        Err(AppError::NotFound(m)) => assert_eq!(m, "No matching instances found"),
        other => panic!("expected NotFound, got {:?}", other),
    }
}

#[test]
fn resolve_takes_the_first_match_and_normalizes_running() {
    let matches = vec![
        instance("i-0abc", "ec2-1.compute.amazonaws.com", LifecycleState::Running),
        instance("i-0def", "ec2-2.compute.amazonaws.com", LifecycleState::Stopped),
    ];
    let r: ResourceRef = resolve(&b"dev".to_vec(), Ok(matches)).unwrap();
    assert_eq!(r.name, b"dev".to_vec());
    assert_eq!(r.provider_id, b"i-0abc".to_vec());
    assert_eq!(r.address, b"ec2-1.compute.amazonaws.com".to_vec());
    assert_eq!(r.power_state, PowerState::Running);
}

#[test]
fn resolve_normalizes_every_other_lifecycle_to_stopped() {
    for lifecycle in [
        LifecycleState::Pending,
        LifecycleState::ShuttingDown,
        LifecycleState::Terminated,
        LifecycleState::Stopping,
        LifecycleState::Stopped,
        LifecycleState::Other,
    ] {
        let r = resolve(&b"dev".to_vec(), Ok(vec![instance("i-1", "", lifecycle)])).unwrap();
        assert_eq!(r.power_state, PowerState::Stopped);
    }
}

#[test]
fn resolve_surfaces_the_provider_error() {
    let r = resolve(&b"dev".to_vec(), Err("throttled".to_string()));
    match r {
        Err(AppError::ProviderError(m)) => assert_eq!(m, "throttled"),
        other => panic!("expected ProviderError, got {:?}", other),
    }
}

#[test]
fn already_running_resource_is_healthy_without_start_or_polling() {
    assert_eq!(begin_ensure_running(PowerState::Running), ControllerState::Healthy);
}

#[test]
fn stopped_resource_requires_a_start_request() {
    assert_eq!(begin_ensure_running(PowerState::Stopped), ControllerState::StartRequested);
    assert_eq!(begin_ensure_running(PowerState::Starting), ControllerState::StartRequested);
}

#[test]
fn accepted_start_opens_polling_with_the_full_budget() {
    let s = on_start_result(&ControllerState::StartRequested, Ok(()), 900).unwrap();
    assert_eq!(s, ControllerState::Polling { ticks_remaining: 900 });
}

#[test]
fn rejected_start_is_fatal() {
    let r = on_start_result(&ControllerState::StartRequested, Err("denied".to_string()), 900);
    match r {
        Err(AppError::StartFailed(m)) => assert_eq!(m, "denied"),
        other => panic!("expected StartFailed, got {:?}", other),
    }
}

#[test]
fn pending_system_check_keeps_polling_and_full_health_exits_next_tick() {
    let s = ControllerState::Polling { ticks_remaining: 10 };
    let partial = report(
        Some(PowerState::Running),
        Some(CheckStatus::Pending),
        Some(CheckStatus::Passed),
    );
    let s = on_poll(&s, Some(partial));
    assert_eq!(s, ControllerState::Polling { ticks_remaining: 9 });
    let satisfied = report(
        Some(PowerState::Running),
        Some(CheckStatus::Passed),
        Some(CheckStatus::Passed),
    );
    let s = on_poll(&s, Some(satisfied));
    assert_eq!(s, ControllerState::Healthy);
}

#[test]
fn missing_fields_count_as_not_yet_satisfied() {
    let h = normalize_report(&report(None, None, Some(CheckStatus::Passed)));
    assert_eq!(h.power, PowerState::Stopped);
    assert_eq!(h.system_check, CheckStatus::Pending);
    assert_eq!(h.instance_check, CheckStatus::Passed);
    let s = on_poll(&ControllerState::Polling { ticks_remaining: 5 }, Some(report(None, None, None)));
    assert_eq!(s, ControllerState::Polling { ticks_remaining: 4 });
}

#[test]
fn transient_poll_failures_are_tolerated() {
    let s = on_poll(&ControllerState::Polling { ticks_remaining: 3 }, None);
    assert_eq!(s, ControllerState::Polling { ticks_remaining: 2 });
}

#[test]
fn exhausted_budget_times_out() {
    let s = on_poll(&ControllerState::Polling { ticks_remaining: 1 }, None);
    assert_eq!(s, ControllerState::TimedOut);
}

#[test]
fn refreshed_address_replaces_the_known_one() {
    let (addr, warned) = refresh_address(b"old".to_vec(), Some(b"new".to_vec()));
    assert_eq!(addr, b"new".to_vec());
    assert!(!warned);
}

#[test]
fn empty_refreshed_address_keeps_the_known_one_with_a_warning() {
    let (addr, warned) = refresh_address(b"old".to_vec(), Some(Vec::new()));
    assert_eq!(addr, b"old".to_vec());
    assert!(warned);
    let (addr, warned) = refresh_address(b"old".to_vec(), None);
    assert_eq!(addr, b"old".to_vec());
    assert!(warned);
}

#[test]
fn stop_is_requested_exactly_for_a_running_resource() {
    assert_eq!(plan_stop(PowerState::Running), StopDecision::RequestStop);
    assert_eq!(plan_stop(PowerState::Stopped), StopDecision::AlreadyStopped);
    assert_eq!(plan_stop(PowerState::Starting), StopDecision::AlreadyStopped);
}

#[test]
fn rejected_stop_fails_the_command() {
    assert!(on_stop_result(Ok(())).is_ok());
    match on_stop_result(Err("rejected".to_string())) {
        Err(AppError::CommandFailed(m)) => assert_eq!(m, "rejected"),
        other => panic!("expected CommandFailed, got {:?}", other),
    }
}

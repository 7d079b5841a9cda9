use backend_supervisor::exit_cleanup::{stop_backend_for_exit, try_begin_exit_cleanup, ExitTrigger};
use backend_supervisor::exit_events::{
    decide_exit_requested_flow, handle_exit_event, handle_exit_requested, ExitRequestAction,
    ExitRequestedDecision,
};
use backend_supervisor::exit_state::{ExitLifecycleState, ExitStateMachine};

#[test]
fn state_machine_flows_through_cleanup_to_exit() {
    let mut machine = ExitStateMachine::default();
    assert_eq!(machine.state(), ExitLifecycleState::Running);
    assert!(!machine.is_quitting());

    machine.mark_quitting();
    assert_eq!(machine.state(), ExitLifecycleState::QuittingRequested);
    assert!(machine.is_quitting());

    assert!(machine.try_begin_cleanup());
    assert_eq!(machine.state(), ExitLifecycleState::CleanupInProgress);
    assert!(machine.is_quitting());

    machine.allow_next_exit_request();
    assert_eq!(machine.state(), ExitLifecycleState::ReadyToExit);
    assert!(machine.take_exit_request_allowance());
    assert_eq!(machine.state(), ExitLifecycleState::Exiting);
}

#[test]
fn state_machine_rejects_duplicate_cleanup() {
    let mut machine = ExitStateMachine::default();
    assert!(machine.try_begin_cleanup());
    assert!(!machine.try_begin_cleanup());
    assert_eq!(machine.state(), ExitLifecycleState::CleanupInProgress);
}

#[test]
fn mark_quitting_does_not_override_cleanup_or_ready_states() {
    let mut machine = ExitStateMachine::default();
    assert!(machine.try_begin_cleanup());
    machine.mark_quitting();
    assert_eq!(machine.state(), ExitLifecycleState::CleanupInProgress);

    machine.allow_next_exit_request();
    machine.mark_quitting();
    assert_eq!(machine.state(), ExitLifecycleState::ReadyToExit);
}

#[test]
fn decide_exit_requested_flow_allows_immediate_exit_when_allowance_exists() {
    assert_eq!(
        decide_exit_requested_flow(true),
        ExitRequestedDecision::AllowImmediateExit
    );
}

#[test]
fn decide_exit_requested_flow_requires_cleanup_when_allowance_missing() {
    assert_eq!(
        decide_exit_requested_flow(false),
        ExitRequestedDecision::RunBackendCleanupFirst
    );
}

#[test]
fn allowance_is_refused_before_cleanup_and_taken_once_after() {
    let mut machine = ExitStateMachine::default();
    assert!(!machine.take_exit_request_allowance());
    assert_eq!(machine.state(), ExitLifecycleState::Running);
    machine.allow_next_exit_request();
    assert!(machine.take_exit_request_allowance());
    assert!(!machine.take_exit_request_allowance());
    assert_eq!(machine.state(), ExitLifecycleState::Exiting);
    assert!(!machine.try_begin_cleanup());
}

#[test]
fn exit_cleanup_is_claimed_by_one_trigger_only() {
    let mut machine = ExitStateMachine::default();
    assert_eq!(try_begin_exit_cleanup(&mut machine, ExitTrigger::ExitRequested), (true, None));
    assert_eq!(
        try_begin_exit_cleanup(&mut machine, ExitTrigger::ExitRequested),
        (
            false,
            Some("exit requested while backend cleanup is already running".to_string())
        )
    );
    assert_eq!(
        try_begin_exit_cleanup(&mut machine, ExitTrigger::ExitFallback),
        (
            false,
            Some("exit fallback cleanup skipped: backend cleanup already running".to_string())
        )
    );
}

#[test]
fn stop_for_exit_logs_failure_and_completion() {
    assert_eq!(
        stop_backend_for_exit(ExitTrigger::ExitRequested, Some("boom")),
        vec![
            "backend graceful stop on ExitRequested failed: boom".to_string(),
            "backend stop finished, exiting desktop process".to_string(),
        ]
    );
    assert_eq!(
        stop_backend_for_exit(ExitTrigger::ExitFallback, Some("boom")),
        vec!["backend fallback stop on Exit failed: boom".to_string()]
    );
    assert_eq!(
        stop_backend_for_exit(ExitTrigger::ExitRequested, None),
        vec!["backend stop finished, exiting desktop process".to_string()]
    );
    assert!(stop_backend_for_exit(ExitTrigger::ExitFallback, None).is_empty());
}

#[test]
fn exit_request_runs_cleanup_once_then_passes() {
    let mut machine = ExitStateMachine::default();
    let (action, notes) = handle_exit_requested(&mut machine);
    assert_eq!(action, ExitRequestAction::HoldAndStopBackend);
    assert_eq!(notes, vec!["exit requested, stopping backend asynchronously".to_string()]);
    assert_eq!(machine.state(), ExitLifecycleState::CleanupInProgress);

    let (action, notes) = handle_exit_requested(&mut machine);
    assert_eq!(action, ExitRequestAction::HoldOnly);
    assert_eq!(
        notes,
        vec!["exit requested while backend cleanup is already running".to_string()]
    );
    let (stop, notes) = handle_exit_event(&mut machine);
    assert!(!stop);
    assert_eq!(
        notes,
        vec!["exit fallback cleanup skipped: backend cleanup already running".to_string()]
    );

    machine.allow_next_exit_request();
    let (action, notes) = handle_exit_requested(&mut machine);
    assert_eq!(action, ExitRequestAction::LetExit);
    assert_eq!(
        notes,
        vec!["exit request allowed to pass through after backend cleanup".to_string()]
    );
    assert_eq!(machine.state(), ExitLifecycleState::Exiting);
}

#[test]
fn exit_event_without_prior_request_runs_fallback_cleanup() {
    let mut machine = ExitStateMachine::default();
    machine.mark_quitting();
    let (stop, notes) = handle_exit_event(&mut machine);
    assert!(stop);
    assert_eq!(notes, vec!["exit event triggered fallback backend cleanup".to_string()]);
    assert_eq!(machine.state(), ExitLifecycleState::CleanupInProgress);
}

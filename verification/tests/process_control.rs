use backend_supervisor::process_control::{
    compute_followup_wait, describe_stop_command, resolve_graceful_wait_timeout, stop_command,
    wait_for_child_exit, ChildPoll, StopAction, StopCommandReport, StopCommandResult,
    StopEscalation, StopEvent, StopPlatform, StopStage, WaitStep,
};

fn report(result: StopCommandResult, detail: &str, rendered: &str) -> StopCommandReport {
    StopCommandReport { result, detail: detail.to_string(), rendered: rendered.to_string() }
}

#[test]
fn compute_followup_wait_respects_min_and_cap() {
    assert_eq!(compute_followup_wait(0, 900), 0);
    assert_eq!(compute_followup_wait(100, 900), 200);
    assert_eq!(compute_followup_wait(9_000, 900), 900);
}

#[test]
fn compute_followup_wait_takes_a_quarter_between_floor_and_cap() {
    assert_eq!(compute_followup_wait(2_000, 900), 500);
    assert_eq!(compute_followup_wait(10_000, 2_200), 2_200);
    assert_eq!(compute_followup_wait(10_000, 1_500), 1_500);
    assert_eq!(compute_followup_wait(4_000, 1_500), 1_000);
    assert_eq!(compute_followup_wait(803, 1_500), 200);
    assert_eq!(compute_followup_wait(804, 1_500), 201);
    assert_eq!(compute_followup_wait(1, 100), 100);
    assert_eq!(compute_followup_wait(1, 0), 0);
    assert_eq!(compute_followup_wait(u64::MAX, u64::MAX), u64::MAX / 4);
}

#[test]
fn resolve_graceful_wait_timeout_shortens_and_logs_on_failure() {
    let mut logs = Vec::new();
    let graceful_status = report(StopCommandResult::NotStarted, "simulated failure", "Err(..)");
    let (wait, note) =
        resolve_graceful_wait_timeout(42, 2_000, 350, &graceful_status, "taskkill graceful stop");
    logs.extend(note);

    assert_eq!(wait, 350);
    assert_eq!(logs.len(), 1);
    assert!(logs[0].contains("shorten graceful wait"));
    assert_eq!(
        logs[0],
        "taskkill graceful stop not successful; shorten graceful wait: pid=42, error=simulated failure, requested_wait_ms=2000, effective_wait_ms=350"
    );
}

#[test]
fn graceful_wait_is_kept_on_success_or_when_already_short() {
    let ok = report(StopCommandResult::Succeeded, "", "Ok(..)");
    assert_eq!(resolve_graceful_wait_timeout(1, 2_000, 350, &ok, "kill -TERM"), (2_000, None));
    let failed = report(StopCommandResult::NonZero, "ExitStatus(1)", "Ok(ExitStatus(1))");
    assert_eq!(resolve_graceful_wait_timeout(1, 300, 350, &failed, "kill -TERM"), (300, None));
    assert_eq!(resolve_graceful_wait_timeout(1, 350, 350, &failed, "kill -TERM"), (350, None));
    let (wait, note) = resolve_graceful_wait_timeout(7, 351, 350, &failed, "kill -TERM");
    assert_eq!(wait, 350);
    assert_eq!(
        note.as_deref(),
        Some("kill -TERM not successful; shorten graceful wait: pid=7, status=ExitStatus(1), requested_wait_ms=351, effective_wait_ms=350")
    );
}

#[test]
fn stop_commands_follow_the_platform() {
    let command = stop_command(StopPlatform::Windows, 4242, false);
    assert_eq!(command.label, "taskkill graceful stop");
    assert_eq!(command.program, "taskkill");
    assert_eq!(command.args, vec!["/pid", "4242", "/t"]);
    let command = stop_command(StopPlatform::Windows, 4242, true);
    assert_eq!(command.label, "taskkill force stop");
    assert_eq!(command.args, vec!["/pid", "4242", "/t", "/f"]);
    let command = stop_command(StopPlatform::Posix, 0, false);
    assert_eq!((command.label.as_str(), command.program.as_str()), ("kill -TERM", "kill"));
    assert_eq!(command.args, vec!["-TERM", "0"]);
    let command = stop_command(StopPlatform::Posix, u32::MAX, true);
    assert_eq!(command.label, "kill -KILL");
    assert_eq!(command.args, vec!["-KILL", "4294967295"]);
}

#[test]
fn failed_stop_commands_are_described() {
    assert_eq!(
        describe_stop_command("kill -TERM", 9, &report(StopCommandResult::Succeeded, "x", "y")),
        None
    );
    assert_eq!(
        describe_stop_command("kill -TERM", 9, &report(StopCommandResult::NonZero, "ExitStatus(256)", "y")),
        Some("kill -TERM returned non-zero: pid=9, status=ExitStatus(256)".to_string())
    );
    assert_eq!(
        describe_stop_command("kill -TERM", 9, &report(StopCommandResult::NotStarted, "not found", "y")),
        Some("kill -TERM failed to start: pid=9, error=not found".to_string())
    );
}

#[test]
fn wait_for_child_exit_polls_until_exit_or_timeout() {
    assert_eq!(wait_for_child_exit(ChildPoll::Exited, 5_000, 100), WaitStep::Done(true));
    assert_eq!(wait_for_child_exit(ChildPoll::Failed, 0, 100), WaitStep::Done(false));
    assert_eq!(wait_for_child_exit(ChildPoll::Running, 99, 100), WaitStep::SleepThenPoll(120));
    assert_eq!(wait_for_child_exit(ChildPoll::Running, 100, 100), WaitStep::Done(false));
    assert_eq!(wait_for_child_exit(ChildPoll::Running, 0, 0), WaitStep::Done(false));
}

#[test]
fn escalation_finishes_after_graceful_exit() {
    let mut escalation = StopEscalation::new(StopPlatform::Posix, 77, 10_000);
    assert_eq!(escalation.stage(), StopStage::Idle);
    assert_eq!(escalation.step(StopEvent::Begin), (StopAction::RunGraceful, vec![]));
    let (action, notes) = escalation.step(StopEvent::CommandFinished(report(
        StopCommandResult::Succeeded,
        "",
        "Ok(ExitStatus(0))",
    )));
    assert_eq!(action, StopAction::WaitForExit(10_000));
    assert!(notes.is_empty());
    assert_eq!(escalation.step(StopEvent::WaitFinished(true)), (StopAction::Finish(true), vec![]));
    assert_eq!(escalation.stage(), StopStage::Finished);
    assert_eq!(escalation.step(StopEvent::Begin), (StopAction::Ignore, vec![]));
    assert_eq!(escalation.step(StopEvent::WaitFinished(false)), (StopAction::Ignore, vec![]));
}

#[test]
fn escalation_forces_after_graceful_wait_runs_out() {
    let mut escalation = StopEscalation::new(StopPlatform::Windows, 5, 10_000);
    assert_eq!(escalation.step(StopEvent::WaitFinished(true)), (StopAction::Ignore, vec![]));
    assert_eq!(escalation.step(StopEvent::Begin).0, StopAction::RunGraceful);
    let (action, notes) = escalation.step(StopEvent::CommandFinished(report(
        StopCommandResult::NonZero,
        "ExitStatus(128)",
        "Ok(ExitStatus(128))",
    )));
    assert_eq!(action, StopAction::WaitForExit(350));
    assert_eq!(
        notes,
        vec![
            "taskkill graceful stop returned non-zero: pid=5, status=ExitStatus(128)".to_string(),
            "taskkill graceful stop not successful; shorten graceful wait: pid=5, status=ExitStatus(128), requested_wait_ms=10000, effective_wait_ms=350".to_string(),
        ]
    );
    assert_eq!(escalation.step(StopEvent::WaitFinished(false)), (StopAction::RunForce, vec![]));
    assert_eq!(escalation.stage(), StopStage::ForceCommand);
    let (action, notes) = escalation.step(StopEvent::CommandFinished(report(
        StopCommandResult::NotStarted,
        "denied",
        "Err(denied)",
    )));
    assert_eq!(action, StopAction::WaitForExit(2_200));
    assert_eq!(
        notes,
        vec![
            "taskkill force stop failed to start: pid=5, error=denied".to_string(),
            "child graceful stop timed out, force-kill issued: pid=5, graceful=Ok(ExitStatus(128)), force=Err(denied), followup_wait_ms=2200".to_string(),
        ]
    );
    assert_eq!(escalation.step(StopEvent::WaitFinished(false)), (StopAction::Finish(false), vec![]));
    assert_eq!(escalation.stage(), StopStage::Finished);
}

#[test]
fn escalation_on_posix_keeps_full_wait_and_caps_followup() {
    let mut escalation = StopEscalation::new(StopPlatform::Posix, 5, 4_000);
    escalation.step(StopEvent::Begin);
    let (action, notes) = escalation.step(StopEvent::CommandFinished(report(
        StopCommandResult::NonZero,
        "ExitStatus(1)",
        "Ok(ExitStatus(1))",
    )));
    assert_eq!(action, StopAction::WaitForExit(4_000));
    assert_eq!(notes, vec!["kill -TERM returned non-zero: pid=5, status=ExitStatus(1)".to_string()]);
    escalation.step(StopEvent::WaitFinished(false));
    let (action, _) = escalation.step(StopEvent::CommandFinished(report(
        StopCommandResult::Succeeded,
        "",
        "Ok(ExitStatus(0))",
    )));
    assert_eq!(action, StopAction::WaitForExit(1_000));
    assert_eq!(escalation.step(StopEvent::WaitFinished(true)).0, StopAction::Finish(true));

    let mut zero = StopEscalation::new(StopPlatform::Posix, 5, 0);
    zero.step(StopEvent::Begin);
    let ok = report(StopCommandResult::Succeeded, "", "Ok");
    assert_eq!(zero.step(StopEvent::CommandFinished(ok)).0, StopAction::WaitForExit(0));
    zero.step(StopEvent::WaitFinished(false));
    let ok = report(StopCommandResult::Succeeded, "", "Ok");
    assert_eq!(zero.step(StopEvent::CommandFinished(ok)).0, StopAction::WaitForExit(0));
}

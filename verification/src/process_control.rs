//! Stopping the backend process: first a request to end, then, where the
//! process is still there after the wait, a forced end. The library decides
//! each step; the caller runs the commands and watches the process.
//!
//! All times are whole milliseconds.

use vstd::prelude::*;
use vstd::string::StringExecFns;
use crate::notes::{note_list, opt_view, push_optional, texts};
use crate::numbers::{decimal_string, decimal_text};
use crate::text::owned;

verus! {

/// The shortest wait after a forced end.
pub const FORCE_STOP_WAIT_MIN_MS: u64 = 200;

/// The longest wait on Windows after a request to end that did not succeed.
pub const WINDOWS_GRACEFUL_STOP_NONZERO_WAIT_MS: u64 = 350;

/// The longest wait after a forced end on Windows.
pub const FORCE_STOP_WAIT_MAX_WINDOWS_MS: u64 = 2_200;

/// The longest wait after a forced end elsewhere.
pub const FORCE_STOP_WAIT_MAX_NON_WINDOWS_MS: u64 = 1_500;

/// The pause between two looks at a process that is to end.
pub const CHILD_EXIT_POLL_INTERVAL_MS: u64 = 120;

/// How long to wait for the process after a forced end: a quarter of the
/// timeout, at least 200 ms, at most `max_extra_wait_ms`; nothing for a
/// timeout of zero.
pub open spec fn followup_wait(timeout_ms: u64, max_extra_wait_ms: u64) -> u64 {
    if timeout_ms == 0 {
        0
    } else {
        let quarter = timeout_ms / 4;
        let floored = if quarter < FORCE_STOP_WAIT_MIN_MS {
            FORCE_STOP_WAIT_MIN_MS
        } else {
            quarter
        };
        if floored > max_extra_wait_ms {
            max_extra_wait_ms
        } else {
            floored
        }
    }
}

/// Computes how long to wait for the process after a forced end.
pub fn compute_followup_wait(timeout_ms: u64, max_extra_wait_ms: u64) -> (wait_ms: u64)
    ensures
        wait_ms == followup_wait(timeout_ms, max_extra_wait_ms),
{
    if timeout_ms == 0 {
        0
    } else {
        let quarter = timeout_ms / 4;
        let floored = if quarter < FORCE_STOP_WAIT_MIN_MS {
            FORCE_STOP_WAIT_MIN_MS
        } else {
            quarter
        };
        if floored > max_extra_wait_ms {
            max_extra_wait_ms
        } else {
            floored
        }
    }
}

/// The wait after a forced end is zero exactly for a timeout of zero or a
/// cap of zero, never above the cap, at least 200 ms where the cap allows
/// it, and does not shrink when the timeout grows.
pub proof fn lemma_followup_wait_bounds(timeout_ms: u64, longer_timeout_ms: u64, cap_ms: u64)
    requires
        timeout_ms <= longer_timeout_ms,
    ensures
        followup_wait(0, cap_ms) == 0,
        followup_wait(timeout_ms, cap_ms) <= cap_ms,
        timeout_ms > 0 && cap_ms >= FORCE_STOP_WAIT_MIN_MS ==> followup_wait(timeout_ms, cap_ms)
            >= FORCE_STOP_WAIT_MIN_MS,
        timeout_ms > 0 && timeout_ms / 4 >= cap_ms ==> followup_wait(timeout_ms, cap_ms) == cap_ms,
        timeout_ms > 0 ==> followup_wait(timeout_ms, cap_ms) <= followup_wait(
            longer_timeout_ms,
            cap_ms,
        ),
        followup_wait(timeout_ms, cap_ms) == 0 <==> (timeout_ms == 0 || cap_ms == 0),
{
}

/// The two families of commands that end a process.
#[derive(Debug, Clone, Copy, PartialEq, Eq, Structural)]
pub enum StopPlatform {
    /// `taskkill`, applied to the process tree.
    Windows,
    /// `kill` with a signal.
    Posix,
}

/// How a command that was to end the process came back.
#[derive(Debug, Clone, Copy, PartialEq, Eq, Structural)]
pub enum StopCommandResult {
    /// It ran and reported success.
    Succeeded,
    /// It ran and reported a failure.
    NonZero,
    /// It could not be started.
    NotStarted,
}

/// The report of one command: how it came back, and two renderings for the
/// log. `detail` is the exit status or the error; `rendered` is the whole
/// result.
#[derive(Debug)]
pub struct StopCommandReport {
    pub result: StopCommandResult,
    pub detail: String,
    pub rendered: String,
}

/// A command to run: its name in the log, the program, and its arguments.
#[derive(Debug)]
pub struct StopCommand {
    pub label: String,
    pub program: String,
    pub args: Vec<String>,
}

/// The name under which a command appears in the log.
pub open spec fn stop_command_label(platform: StopPlatform, force: bool) -> Seq<char> {
    match platform {
        StopPlatform::Windows => if force {
            "taskkill force stop"@
        } else {
            "taskkill graceful stop"@
        },
        StopPlatform::Posix => if force {
            "kill -KILL"@
        } else {
            "kill -TERM"@
        },
    }
}

/// The program that ends a process.
pub open spec fn stop_command_program(platform: StopPlatform) -> Seq<char> {
    match platform {
        StopPlatform::Windows => "taskkill"@,
        StopPlatform::Posix => "kill"@,
    }
}

/// The arguments that end the process `pid`: on Windows the process tree,
/// with `/f` to force it; elsewhere the signal `TERM`, or `KILL` to force.
pub open spec fn stop_command_args(platform: StopPlatform, pid: u32, force: bool) -> Seq<Seq<char>> {
    match platform {
        StopPlatform::Windows => if force {
            seq!["/pid"@, decimal_text(pid as nat), "/t"@, "/f"@]
        } else {
            seq!["/pid"@, decimal_text(pid as nat), "/t"@]
        },
        StopPlatform::Posix => if force {
            seq!["-KILL"@, decimal_text(pid as nat)]
        } else {
            seq!["-TERM"@, decimal_text(pid as nat)]
        },
    }
}

/// The command that asks the process `pid` to end, or forces it to.
pub fn stop_command(platform: StopPlatform, pid: u32, force: bool) -> (command: StopCommand)
    ensures
        command.label@ == stop_command_label(platform, force),
        command.program@ == stop_command_program(platform),
        texts(command.args@) == stop_command_args(platform, pid, force),
{
    let pid_arg = decimal_string(pid as u64);
    let mut args: Vec<String> = Vec::new();
    match platform {
        StopPlatform::Windows => {
            args.push(owned("/pid"));
            args.push(pid_arg);
            args.push(owned("/t"));
            if force {
                args.push(owned("/f"));
            }
            assert(texts(args@) =~= stop_command_args(platform, pid, force));
            StopCommand {
                label: owned(
                    if force {
                        "taskkill force stop"
                    } else {
                        "taskkill graceful stop"
                    },
                ),
                program: owned("taskkill"),
                args,
            }
        },
        StopPlatform::Posix => {
            args.push(owned(if force {
                "-KILL"
            } else {
                "-TERM"
            }));
            args.push(pid_arg);
            assert(texts(args@) =~= stop_command_args(platform, pid, force));
            StopCommand {
                label: owned(if force {
                    "kill -KILL"
                } else {
                    "kill -TERM"
                }),
                program: owned("kill"),
                args,
            }
        },
    }
}

/// The line logged for a command that did not succeed.
pub open spec fn stop_command_note(label: Seq<char>, pid: u32, report: StopCommandReport) -> Option<
    Seq<char>,
> {
    match report.result {
        StopCommandResult::Succeeded => None,
        StopCommandResult::NonZero => Some(
            label + " returned non-zero: pid="@ + decimal_text(pid as nat) + ", status="@
                + report.detail@,
        ),
        StopCommandResult::NotStarted => Some(
            label + " failed to start: pid="@ + decimal_text(pid as nat) + ", error="@
                + report.detail@,
        ),
    }
}

/// The line to log for the report of a command, where it did not succeed.
pub fn describe_stop_command(label: &str, pid: u32, report: &StopCommandReport) -> (note: Option<
    String,
>)
    ensures
        opt_view(note) == stop_command_note(label@, pid, *report),
{
    match report.result {
        StopCommandResult::Succeeded => None,
        StopCommandResult::NonZero => {
            let mut note = owned(label);
            note.append(" returned non-zero: pid=");
            note.append(decimal_string(pid as u64).as_str());
            note.append(", status=");
            note.append(report.detail.as_str());
            Some(note)
        },
        StopCommandResult::NotStarted => {
            let mut note = owned(label);
            note.append(" failed to start: pid=");
            note.append(decimal_string(pid as u64).as_str());
            note.append(", error=");
            note.append(report.detail.as_str());
            Some(note)
        },
    }
}

/// How long to wait for the process after the request to end: the whole
/// timeout where the command succeeded, and no more than the cap where it
/// did not.
pub open spec fn graceful_wait(
    timeout_ms: u64,
    non_success_wait_cap_ms: u64,
    result: StopCommandResult,
) -> u64 {
    if result == StopCommandResult::Succeeded || timeout_ms <= non_success_wait_cap_ms {
        timeout_ms
    } else {
        non_success_wait_cap_ms
    }
}

/// How an unsuccessful command is named in the line about a shortened wait.
pub open spec fn outcome_text(report: StopCommandReport) -> Seq<char> {
    if report.result == StopCommandResult::NotStarted {
        "error="@ + report.detail@
    } else {
        "status="@ + report.detail@
    }
}

/// The line logged where the wait was shortened.
pub open spec fn graceful_wait_note(
    pid: u32,
    timeout_ms: u64,
    non_success_wait_cap_ms: u64,
    report: StopCommandReport,
    command_label: Seq<char>,
) -> Option<Seq<char>> {
    if graceful_wait(timeout_ms, non_success_wait_cap_ms, report.result) < timeout_ms {
        Some(
            command_label + " not successful; shorten graceful wait: pid="@ + decimal_text(
                pid as nat,
            ) + ", "@ + outcome_text(report) + ", requested_wait_ms="@ + decimal_text(
                timeout_ms as nat,
            ) + ", effective_wait_ms="@ + decimal_text(non_success_wait_cap_ms as nat),
        )
    } else {
        None
    }
}

/// Decides how long to wait for the process after the request to end. The
/// second result is the line to log where the wait was shortened.
pub fn resolve_graceful_wait_timeout(
    pid: u32,
    timeout_ms: u64,
    non_success_wait_cap_ms: u64,
    report: &StopCommandReport,
    command_label: &str,
) -> (outcome: (u64, Option<String>))
    ensures
        outcome.0 == graceful_wait(timeout_ms, non_success_wait_cap_ms, report.result),
        opt_view(outcome.1) == graceful_wait_note(
            pid,
            timeout_ms,
            non_success_wait_cap_ms,
            *report,
            command_label@,
        ),
{
    if report.result == StopCommandResult::Succeeded {
        return (timeout_ms, None);
    }
    if timeout_ms <= non_success_wait_cap_ms {
        return (timeout_ms, None);
    }
    let mut outcome = owned(
        if report.result == StopCommandResult::NotStarted {
            "error="
        } else {
            "status="
        },
    );
    outcome.append(report.detail.as_str());
    let mut note = owned(command_label);
    note.append(" not successful; shorten graceful wait: pid=");
    note.append(decimal_string(pid as u64).as_str());
    note.append(", ");
    note.append(outcome.as_str());
    note.append(", requested_wait_ms=");
    note.append(decimal_string(timeout_ms).as_str());
    note.append(", effective_wait_ms=");
    note.append(decimal_string(non_success_wait_cap_ms).as_str());
    (non_success_wait_cap_ms, Some(note))
}

/// What a look at the process showed.
#[derive(Debug, Clone, Copy, PartialEq, Eq, Structural)]
pub enum ChildPoll {
    /// The process has ended.
    Exited,
    /// The process is still there.
    Running,
    /// The look itself failed.
    Failed,
}

/// What to do after a look at the process during a wait for its end.
#[derive(Debug, Clone, Copy, PartialEq, Eq, Structural)]
pub enum WaitStep {
    /// The wait is over; the field says whether the process has ended.
    Done(bool),
    /// Sleep for so many milliseconds, then look again.
    SleepThenPoll(u64),
}

/// The step that follows a look at the process: an ended process ends the
/// wait with success, a failed look or a used-up time ends it without, and
/// otherwise the caller sleeps 120 ms and looks again.
pub open spec fn wait_step(poll: ChildPoll, elapsed_ms: u64, timeout_ms: u64) -> WaitStep {
    match poll {
        ChildPoll::Exited => WaitStep::Done(true),
        ChildPoll::Failed => WaitStep::Done(false),
        ChildPoll::Running => if elapsed_ms >= timeout_ms {
            WaitStep::Done(false)
        } else {
            WaitStep::SleepThenPoll(CHILD_EXIT_POLL_INTERVAL_MS)
        },
    }
}

/// Decides the step that follows a look at the process. `elapsed_ms` is the
/// time since the wait began.
pub fn wait_for_child_exit(poll: ChildPoll, elapsed_ms: u64, timeout_ms: u64) -> (step: WaitStep)
    ensures
        step == wait_step(poll, elapsed_ms, timeout_ms),
{
    match poll {
        ChildPoll::Exited => WaitStep::Done(true),
        ChildPoll::Failed => WaitStep::Done(false),
        ChildPoll::Running => if elapsed_ms >= timeout_ms {
            WaitStep::Done(false)
        } else {
            WaitStep::SleepThenPoll(CHILD_EXIT_POLL_INTERVAL_MS)
        },
    }
}

/// The longest wait after a request to end that did not succeed: 350 ms on
/// Windows, the whole timeout elsewhere.
pub open spec fn non_success_wait_cap(platform: StopPlatform, timeout_ms: u64) -> u64 {
    match platform {
        StopPlatform::Windows => WINDOWS_GRACEFUL_STOP_NONZERO_WAIT_MS,
        StopPlatform::Posix => timeout_ms,
    }
}

/// The longest wait after a forced end: 2200 ms on Windows, 1500 ms
/// elsewhere.
pub open spec fn force_wait_cap(platform: StopPlatform) -> u64 {
    match platform {
        StopPlatform::Windows => FORCE_STOP_WAIT_MAX_WINDOWS_MS,
        StopPlatform::Posix => FORCE_STOP_WAIT_MAX_NON_WINDOWS_MS,
    }
}

/// How far the escalation has come.
#[derive(Debug, Clone, Copy, PartialEq, Eq, Structural)]
pub enum StopStage {
    /// Nothing has been sent.
    Idle,
    /// The request to end is being sent.
    GracefulCommand,
    /// The caller waits for the process after the request.
    GracefulWait,
    /// The forced end is being sent.
    ForceCommand,
    /// The caller waits for the process after the forced end.
    ForceWait,
    /// The escalation is over.
    Finished,
}

/// What the caller reports to the escalation.
#[derive(Debug)]
pub enum StopEvent {
    /// The escalation is to start.
    Begin,
    /// The command that was to be run has come back.
    CommandFinished(StopCommandReport),
    /// The wait is over; the field says whether the process has ended.
    WaitFinished(bool),
}

/// What the caller is to do next.
#[derive(Debug, Clone, Copy, PartialEq, Eq, Structural)]
pub enum StopAction {
    /// Run `stop_command` without force, then report how it came back.
    RunGraceful,
    /// Run `stop_command` with force, then report how it came back.
    RunForce,
    /// Wait up to so many milliseconds for the process to end, then report.
    WaitForExit(u64),
    /// The escalation is over; the field says whether the process has ended.
    Finish(bool),
    /// The event does not fit the stage; nothing has changed.
    Ignore,
}

/// The line logged once the forced end has been sent.
pub open spec fn force_issued_note(
    pid: u32,
    graceful_rendered: Seq<char>,
    force_rendered: Seq<char>,
    followup_wait_ms: u64,
) -> Seq<char> {
    "child graceful stop timed out, force-kill issued: pid="@ + decimal_text(pid as nat)
        + ", graceful="@ + graceful_rendered + ", force="@ + force_rendered
        + ", followup_wait_ms="@ + decimal_text(followup_wait_ms as nat)
}

/// The stage that follows an event.
pub open spec fn next_stop_stage(stage: StopStage, event: StopEvent) -> StopStage {
    match (stage, event) {
        (StopStage::Idle, StopEvent::Begin) => StopStage::GracefulCommand,
        (StopStage::GracefulCommand, StopEvent::CommandFinished(_)) => StopStage::GracefulWait,
        (StopStage::GracefulWait, StopEvent::WaitFinished(exited)) => if exited {
            StopStage::Finished
        } else {
            StopStage::ForceCommand
        },
        (StopStage::ForceCommand, StopEvent::CommandFinished(_)) => StopStage::ForceWait,
        (StopStage::ForceWait, StopEvent::WaitFinished(_)) => StopStage::Finished,
        _ => stage,
    }
}

/// The escalation that ends one process within one timeout.
#[derive(Debug)]
pub struct StopEscalation {
    platform: StopPlatform,
    pid: u32,
    timeout_ms: u64,
    stage: StopStage,
    graceful_rendered: String,
}

impl StopEscalation {
    /// The family of commands that the escalation uses.
    pub closed spec fn platform(&self) -> StopPlatform {
        self.platform
    }

    /// The process that the escalation ends.
    pub closed spec fn pid(&self) -> u32 {
        self.pid
    }

    /// How long the process is given to end, in milliseconds.
    pub closed spec fn timeout_ms(&self) -> u64 {
        self.timeout_ms
    }

    /// How far the escalation has come.
    pub closed spec fn spec_stage(&self) -> StopStage {
        self.stage
    }

    /// The rendering of the first command's result, once it has come back.
    pub closed spec fn graceful_rendered(&self) -> Seq<char> {
        self.graceful_rendered@
    }

    /// What the caller is to do after `event`.
    pub open spec fn action_for(&self, event: StopEvent) -> StopAction {
        match (self.spec_stage(), event) {
            (StopStage::Idle, StopEvent::Begin) => StopAction::RunGraceful,
            (StopStage::GracefulCommand, StopEvent::CommandFinished(report)) => StopAction::WaitForExit(
                graceful_wait(
                    self.timeout_ms(),
                    non_success_wait_cap(self.platform(), self.timeout_ms()),
                    report.result,
                ),
            ),
            (StopStage::GracefulWait, StopEvent::WaitFinished(exited)) => if exited {
                StopAction::Finish(true)
            } else {
                StopAction::RunForce
            },
            (StopStage::ForceCommand, StopEvent::CommandFinished(_)) => StopAction::WaitForExit(
                followup_wait(self.timeout_ms(), force_wait_cap(self.platform())),
            ),
            (StopStage::ForceWait, StopEvent::WaitFinished(exited)) => StopAction::Finish(exited),
            _ => StopAction::Ignore,
        }
    }

    /// The lines to log after `event`.
    pub open spec fn notes_for(&self, event: StopEvent) -> Seq<Seq<char>> {
        match (self.spec_stage(), event) {
            (StopStage::GracefulCommand, StopEvent::CommandFinished(report)) => note_list(
                stop_command_note(stop_command_label(self.platform(), false), self.pid(), report),
            ) + note_list(
                graceful_wait_note(
                    self.pid(),
                    self.timeout_ms(),
                    non_success_wait_cap(self.platform(), self.timeout_ms()),
                    report,
                    stop_command_label(self.platform(), false),
                ),
            ),
            (StopStage::ForceCommand, StopEvent::CommandFinished(report)) => note_list(
                stop_command_note(stop_command_label(self.platform(), true), self.pid(), report),
            ) + seq![
                force_issued_note(
                    self.pid(),
                    self.graceful_rendered(),
                    report.rendered@,
                    followup_wait(self.timeout_ms(), force_wait_cap(self.platform())),
                ),
            ],
            _ => Seq::empty(),
        }
    }

    /// An escalation for the process `pid`, with nothing sent yet.
    pub fn new(platform: StopPlatform, pid: u32, timeout_ms: u64) -> (escalation: Self)
        ensures
            escalation.platform() == platform,
            escalation.pid() == pid,
            escalation.timeout_ms() == timeout_ms,
            escalation.spec_stage() == StopStage::Idle,
    {
        StopEscalation {
            platform,
            pid,
            timeout_ms,
            stage: StopStage::Idle,
            graceful_rendered: String::new(),
        }
    }

    /// The stage that the escalation is in.
    pub fn stage(&self) -> (stage: StopStage)
        ensures
            stage == self.spec_stage(),
    {
        self.stage
    }

    /// Takes one event and says what to do next and what to log. An event
    /// that does not fit the stage changes nothing.
    pub fn step(&mut self, event: StopEvent) -> (outcome: (StopAction, Vec<String>))
        ensures
            outcome.0 == old(self).action_for(event),
            texts(outcome.1@) == old(self).notes_for(event),
            final(self).spec_stage() == next_stop_stage(old(self).spec_stage(), event),
            final(self).platform() == old(self).platform(),
            final(self).pid() == old(self).pid(),
            final(self).timeout_ms() == old(self).timeout_ms(),
            final(self).graceful_rendered() == (match (old(self).spec_stage(), event) {
                (StopStage::GracefulCommand, StopEvent::CommandFinished(report)) => report.rendered@,
                _ => old(self).graceful_rendered(),
            }),
    {
        let mut notes: Vec<String> = Vec::new();
        assert(texts(notes@) =~= Seq::<Seq<char>>::empty());
        let stage = self.stage;
        match event {
            StopEvent::Begin => {
                if stage == StopStage::Idle {
                    self.stage = StopStage::GracefulCommand;
                    (StopAction::RunGraceful, notes)
                } else {
                    (StopAction::Ignore, notes)
                }
            },
            StopEvent::CommandFinished(report) => {
                if stage == StopStage::GracefulCommand {
                    let command = stop_command(self.platform, self.pid, false);
                    let failure = describe_stop_command(command.label.as_str(), self.pid, &report);
                    let cap = match self.platform {
                        StopPlatform::Windows => WINDOWS_GRACEFUL_STOP_NONZERO_WAIT_MS,
                        StopPlatform::Posix => self.timeout_ms,
                    };
                    let (wait_ms, shortened) = resolve_graceful_wait_timeout(
                        self.pid,
                        self.timeout_ms,
                        cap,
                        &report,
                        command.label.as_str(),
                    );
                    push_optional(&mut notes, failure);
                    push_optional(&mut notes, shortened);
                    self.graceful_rendered = report.rendered;
                    self.stage = StopStage::GracefulWait;
                    (StopAction::WaitForExit(wait_ms), notes)
                } else if stage == StopStage::ForceCommand {
                    let command = stop_command(self.platform, self.pid, true);
                    let failure = describe_stop_command(command.label.as_str(), self.pid, &report);
                    let cap = match self.platform {
                        StopPlatform::Windows => FORCE_STOP_WAIT_MAX_WINDOWS_MS,
                        StopPlatform::Posix => FORCE_STOP_WAIT_MAX_NON_WINDOWS_MS,
                    };
                    let wait_ms = compute_followup_wait(self.timeout_ms, cap);
                    let mut line = owned("child graceful stop timed out, force-kill issued: pid=");
                    line.append(decimal_string(self.pid as u64).as_str());
                    line.append(", graceful=");
                    line.append(self.graceful_rendered.as_str());
                    line.append(", force=");
                    line.append(report.rendered.as_str());
                    line.append(", followup_wait_ms=");
                    line.append(decimal_string(wait_ms).as_str());
                    push_optional(&mut notes, failure);
                    push_optional(&mut notes, Some(line));
                    self.stage = StopStage::ForceWait;
                    (StopAction::WaitForExit(wait_ms), notes)
                } else {
                    (StopAction::Ignore, notes)
                }
            },
            StopEvent::WaitFinished(exited) => {
                if stage == StopStage::GracefulWait {
                    if exited {
                        self.stage = StopStage::Finished;
                        (StopAction::Finish(true), notes)
                    } else {
                        self.stage = StopStage::ForceCommand;
                        (StopAction::RunForce, notes)
                    }
                } else if stage == StopStage::ForceWait {
                    self.stage = StopStage::Finished;
                    (StopAction::Finish(exited), notes)
                } else {
                    (StopAction::Ignore, notes)
                }
            },
        }
    }
}

/// How many events an escalation can still take before it is over.
pub open spec fn stop_stage_rank(stage: StopStage) -> nat {
    match stage {
        StopStage::Idle => 5,
        StopStage::GracefulCommand => 4,
        StopStage::GracefulWait => 3,
        StopStage::ForceCommand => 2,
        StopStage::ForceWait => 1,
        StopStage::Finished => 0,
    }
}

/// Every event that is not ignored brings the escalation nearer to its
/// end, so that it is over after five such events at most; and the forced
/// end is sent only after a wait that found the process still there.
pub proof fn lemma_escalation_advances(escalation: StopEscalation, event: StopEvent)
    ensures
        escalation.action_for(event) != StopAction::Ignore ==> stop_stage_rank(
            next_stop_stage(escalation.spec_stage(), event),
        ) < stop_stage_rank(escalation.spec_stage()),
        escalation.action_for(event) == StopAction::Ignore ==> next_stop_stage(
            escalation.spec_stage(),
            event,
        ) == escalation.spec_stage(),
        escalation.action_for(event) == StopAction::RunForce ==> escalation.spec_stage()
            == StopStage::GracefulWait && event == StopEvent::WaitFinished(false),
        escalation.action_for(event) is Finish <==> next_stop_stage(
            escalation.spec_stage(),
            event,
        ) == StopStage::Finished && escalation.spec_stage() != StopStage::Finished,
{
}

/// The waits that an escalation asks for: after the request to end never
/// more than the timeout, and on Windows never more than 350 ms where the
/// request did not succeed; after the forced end never more than the
/// platform's cap, and nothing for a timeout of zero.
pub proof fn lemma_escalation_waits_are_bounded(escalation: StopEscalation, event: StopEvent)
    ensures
        match escalation.action_for(event) {
            StopAction::WaitForExit(wait_ms) => if escalation.spec_stage()
                == StopStage::GracefulCommand {
                &&& wait_ms <= escalation.timeout_ms()
                &&& event matches StopEvent::CommandFinished(report) && (report.result
                    == StopCommandResult::Succeeded ==> wait_ms == escalation.timeout_ms())
                &&& event matches StopEvent::CommandFinished(report) && (report.result
                    != StopCommandResult::Succeeded && escalation.platform()
                    == StopPlatform::Windows ==> wait_ms <= WINDOWS_GRACEFUL_STOP_NONZERO_WAIT_MS)
            } else {
                &&& wait_ms <= force_wait_cap(escalation.platform())
                &&& escalation.timeout_ms() == 0 ==> wait_ms == 0
            },
            _ => true,
        },
{
}

} // verus!

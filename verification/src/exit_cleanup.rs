//! The cleanup that runs before the application exits: who may start it,
//! and what is logged around the stop of the backend.

use vstd::prelude::*;
use vstd::string::StringExecFns;
use crate::exit_state::{after_begin_cleanup, cleanup_may_begin, ExitStateMachine};
use crate::notes::{note_list, opt_view, push_optional, texts};
use crate::text::owned;

verus! {

/// What set the cleanup off.
#[derive(Debug, Clone, Copy, PartialEq, Eq, Structural)]
pub enum ExitTrigger {
    /// The application was asked to exit.
    ExitRequested,
    /// The application is exiting and no cleanup has run.
    ExitFallback,
}

/// The line logged where a cleanup was already running.
pub open spec fn cleanup_busy_note(trigger: ExitTrigger) -> Seq<char> {
    match trigger {
        ExitTrigger::ExitRequested => "exit requested while backend cleanup is already running"@,
        ExitTrigger::ExitFallback => "exit fallback cleanup skipped: backend cleanup already running"@,
    }
}

/// Claims the cleanup for `trigger`. Where the claim fails, the state stays
/// and the second result is the line to log.
pub fn try_begin_exit_cleanup(machine: &mut ExitStateMachine, trigger: ExitTrigger) -> (outcome: (
    bool,
    Option<String>,
))
    ensures
        outcome.0 == cleanup_may_begin(old(machine)@),
        final(machine)@ == after_begin_cleanup(old(machine)@),
        opt_view(outcome.1) == (if outcome.0 {
            None
        } else {
            Some(cleanup_busy_note(trigger))
        }),
{
    if machine.try_begin_cleanup() {
        return (true, None);
    }
    let message = match trigger {
        ExitTrigger::ExitRequested => "exit requested while backend cleanup is already running",
        ExitTrigger::ExitFallback => "exit fallback cleanup skipped: backend cleanup already running",
    };
    (false, Some(owned(message)))
}

/// How a failed stop is introduced in the log.
pub open spec fn stop_failure_prefix(trigger: ExitTrigger) -> Seq<char> {
    match trigger {
        ExitTrigger::ExitRequested => "backend graceful stop on ExitRequested failed"@,
        ExitTrigger::ExitFallback => "backend fallback stop on Exit failed"@,
    }
}

/// The lines logged after the stop of the backend: one for a failure, and
/// one that announces the exit where the exit was requested.
pub open spec fn stop_for_exit_notes(trigger: ExitTrigger, failure: Option<Seq<char>>) -> Seq<
    Seq<char>,
> {
    note_list(
        match failure {
            Some(error) => Some(stop_failure_prefix(trigger) + ": "@ + error),
            None => None,
        },
    ) + note_list(
        if trigger == ExitTrigger::ExitRequested {
            Some("backend stop finished, exiting desktop process"@)
        } else {
            None
        },
    )
}

/// What to log after the backend was stopped for the exit. `failure` holds
/// the error of the stop, where it failed.
pub fn stop_backend_for_exit(trigger: ExitTrigger, failure: Option<&str>) -> (notes: Vec<String>)
    ensures
        texts(notes@) == stop_for_exit_notes(
            trigger,
            crate::notes::opt_str_view(failure),
        ),
{
    let mut notes: Vec<String> = Vec::new();
    assert(texts(notes@) =~= Seq::<Seq<char>>::empty());
    let failed = match failure {
        Some(error) => {
            let mut line = owned(
                match trigger {
                    ExitTrigger::ExitRequested => "backend graceful stop on ExitRequested failed",
                    ExitTrigger::ExitFallback => "backend fallback stop on Exit failed",
                },
            );
            line.append(": ");
            line.append(error);
            Some(line)
        },
        None => None,
    };
    push_optional(&mut notes, failed);
    let finished = match trigger {
        ExitTrigger::ExitRequested => Some(owned("backend stop finished, exiting desktop process")),
        ExitTrigger::ExitFallback => None,
    };
    push_optional(&mut notes, finished);
    notes
}

} // verus!

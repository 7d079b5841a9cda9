//! What the application does when it is asked to exit, and when it exits.

use vstd::prelude::*;
use crate::exit_cleanup::{cleanup_busy_note, try_begin_exit_cleanup, ExitTrigger};
use crate::exit_state::{
    after_begin_cleanup, after_take_allowance, allowance_available, cleanup_may_begin,
    ExitLifecycleState, ExitStateMachine,
};
use crate::notes::{push_optional, texts};
use crate::text::owned;

verus! {

/// Whether a request to exit may pass at once.
#[derive(Debug, Clone, Copy, PartialEq, Eq, Structural)]
pub enum ExitRequestedDecision {
    AllowImmediateExit,
    RunBackendCleanupFirst,
}

/// A request to exit passes at once where the allowance was there to take,
/// and has to run the cleanup first where it was not.
pub fn decide_exit_requested_flow(has_exit_request_allowance: bool) -> (decision:
    ExitRequestedDecision)
    ensures
        decision == (if has_exit_request_allowance {
            ExitRequestedDecision::AllowImmediateExit
        } else {
            ExitRequestedDecision::RunBackendCleanupFirst
        }),
{
    if has_exit_request_allowance {
        ExitRequestedDecision::AllowImmediateExit
    } else {
        ExitRequestedDecision::RunBackendCleanupFirst
    }
}

/// What the caller does with a request to exit.
#[derive(Debug, Clone, Copy, PartialEq, Eq, Structural)]
pub enum ExitRequestAction {
    /// Let the request pass: the cleanup has run.
    LetExit,
    /// Hold the request back, stop the backend off the event thread, then
    /// call `finish_exit_cleanup` and exit.
    HoldAndStopBackend,
    /// Hold the request back and do nothing more: a cleanup is running.
    HoldOnly,
}

/// What follows a request to exit in the given state.
pub open spec fn exit_requested_action(state: ExitLifecycleState) -> ExitRequestAction {
    if allowance_available(state) {
        ExitRequestAction::LetExit
    } else if cleanup_may_begin(state) {
        ExitRequestAction::HoldAndStopBackend
    } else {
        ExitRequestAction::HoldOnly
    }
}

/// The lines logged for a request to exit in the given state.
pub open spec fn exit_requested_notes(state: ExitLifecycleState) -> Seq<Seq<char>> {
    match exit_requested_action(state) {
        ExitRequestAction::LetExit => seq![
            "exit request allowed to pass through after backend cleanup"@,
        ],
        ExitRequestAction::HoldAndStopBackend => seq![
            "exit requested, stopping backend asynchronously"@,
        ],
        ExitRequestAction::HoldOnly => seq![cleanup_busy_note(ExitTrigger::ExitRequested)],
    }
}

/// Handles a request to exit: takes the allowance where there is one, and
/// claims the cleanup where there is none.
pub fn handle_exit_requested(machine: &mut ExitStateMachine) -> (outcome: (
    ExitRequestAction,
    Vec<String>,
))
    ensures
        outcome.0 == exit_requested_action(old(machine)@),
        texts(outcome.1@) == exit_requested_notes(old(machine)@),
        final(machine)@ == after_begin_cleanup(after_take_allowance(old(machine)@)),
{
    let mut notes: Vec<String> = Vec::new();
    assert(texts(notes@) =~= Seq::<Seq<char>>::empty());
    match decide_exit_requested_flow(machine.take_exit_request_allowance()) {
        ExitRequestedDecision::AllowImmediateExit => {
            push_optional(
                &mut notes,
                Some(owned("exit request allowed to pass through after backend cleanup")),
            );
            assert(texts(notes@) =~= exit_requested_notes(old(machine)@));
            return (ExitRequestAction::LetExit, notes);
        },
        ExitRequestedDecision::RunBackendCleanupFirst => {},
    }
    let (begun, busy) = try_begin_exit_cleanup(machine, ExitTrigger::ExitRequested);
    if !begun {
        push_optional(&mut notes, busy);
        assert(texts(notes@) =~= exit_requested_notes(old(machine)@));
        return (ExitRequestAction::HoldOnly, notes);
    }
    push_optional(&mut notes, Some(owned("exit requested, stopping backend asynchronously")));
    assert(texts(notes@) =~= exit_requested_notes(old(machine)@));
    (ExitRequestAction::HoldAndStopBackend, notes)
}

/// The lines logged when the application exits in the given state.
pub open spec fn exit_event_notes(state: ExitLifecycleState) -> Seq<Seq<char>> {
    if cleanup_may_begin(state) {
        seq!["exit event triggered fallback backend cleanup"@]
    } else {
        seq![cleanup_busy_note(ExitTrigger::ExitFallback)]
    }
}

/// Handles the exit itself: where no cleanup has been claimed, this caller
/// claims it and has to stop the backend. The first result says whether it
/// has to.
pub fn handle_exit_event(machine: &mut ExitStateMachine) -> (outcome: (bool, Vec<String>))
    ensures
        outcome.0 == cleanup_may_begin(old(machine)@),
        texts(outcome.1@) == exit_event_notes(old(machine)@),
        final(machine)@ == after_begin_cleanup(old(machine)@),
{
    let mut notes: Vec<String> = Vec::new();
    assert(texts(notes@) =~= Seq::<Seq<char>>::empty());
    let (begun, busy) = try_begin_exit_cleanup(machine, ExitTrigger::ExitFallback);
    if !begun {
        push_optional(&mut notes, busy);
        assert(texts(notes@) =~= exit_event_notes(old(machine)@));
        return (false, notes);
    }
    push_optional(&mut notes, Some(owned("exit event triggered fallback backend cleanup")));
    assert(texts(notes@) =~= exit_event_notes(old(machine)@));
    (true, notes)
}

/// Of any two requests to exit that arrive one after the other, at most one
/// is told to stop the backend; and a request that arrives after the
/// cleanup has finished passes, once.
pub proof fn lemma_one_cleanup_per_exit(state: ExitLifecycleState)
    ensures
        exit_requested_action(state) == ExitRequestAction::HoldAndStopBackend
            ==> exit_requested_action(after_begin_cleanup(after_take_allowance(state)))
            == ExitRequestAction::HoldOnly,
        exit_requested_action(ExitLifecycleState::ReadyToExit) == ExitRequestAction::LetExit,
        exit_requested_action(state) == ExitRequestAction::LetExit ==> exit_requested_action(
            after_begin_cleanup(after_take_allowance(state)),
        ) == ExitRequestAction::HoldOnly,
        exit_requested_action(state) == ExitRequestAction::HoldAndStopBackend ==> !cleanup_may_begin(
            after_begin_cleanup(after_take_allowance(state)),
        ),
{
}

} // verus!

//! The exit lifecycle: a five-state machine that serialises shutdown attempts
//! arriving from several event sources.

use vstd::prelude::*;

verus! {

/// Where the application stands on its way out.
#[derive(Debug, Clone, Copy, PartialEq, Eq, Structural)]
pub enum ExitLifecycleState {
    Running,
    QuittingRequested,
    CleanupInProgress,
    ReadyToExit,
    Exiting,
}

impl Default for ExitLifecycleState {
    fn default() -> (state: Self)
        ensures
            state == ExitLifecycleState::Running,
    {
        ExitLifecycleState::Running
    }
}

/// State after a quit was requested: only `Running` moves.
pub open spec fn after_mark_quitting(state: ExitLifecycleState) -> ExitLifecycleState {
    if state == ExitLifecycleState::Running {
        ExitLifecycleState::QuittingRequested
    } else {
        state
    }
}

/// Whether a cleanup may start in `state`.
pub open spec fn cleanup_may_begin(state: ExitLifecycleState) -> bool {
    state == ExitLifecycleState::Running || state == ExitLifecycleState::QuittingRequested
}

/// State after an attempt to start the cleanup.
pub open spec fn after_begin_cleanup(state: ExitLifecycleState) -> ExitLifecycleState {
    if cleanup_may_begin(state) {
        ExitLifecycleState::CleanupInProgress
    } else {
        state
    }
}

/// Whether an exit request may pass in `state`.
pub open spec fn allowance_available(state: ExitLifecycleState) -> bool {
    state == ExitLifecycleState::ReadyToExit
}

/// State after an attempt to consume the exit allowance.
pub open spec fn after_take_allowance(state: ExitLifecycleState) -> ExitLifecycleState {
    if allowance_available(state) {
        ExitLifecycleState::Exiting
    } else {
        state
    }
}

/// Whether the shutdown has gone past the point where a cleanup can start.
pub open spec fn cleanup_claimed(state: ExitLifecycleState) -> bool {
    !cleanup_may_begin(state)
}

/// The exit lifecycle state machine. It starts in `Running`.
#[derive(Debug, Clone, Copy)]
pub struct ExitStateMachine {
    state: ExitLifecycleState,
}

impl View for ExitStateMachine {
    type V = ExitLifecycleState;

    closed spec fn view(&self) -> ExitLifecycleState {
        self.state
    }
}

impl Default for ExitStateMachine {
    fn default() -> (machine: Self)
        ensures
            machine@ == ExitLifecycleState::Running,
    {
        ExitStateMachine { state: ExitLifecycleState::Running }
    }
}

impl ExitStateMachine {
    /// The current state.
    pub fn state(&self) -> (state: ExitLifecycleState)
        ensures
            state == self@,
    {
        self.state
    }

    /// True once anything has asked the application to quit.
    pub fn is_quitting(&self) -> (quitting: bool)
        ensures
            quitting == (self@ != ExitLifecycleState::Running),
    {
        self.state != ExitLifecycleState::Running
    }

    /// Records a quit request. Only `Running` changes; later states stay.
    pub fn mark_quitting(&mut self)
        ensures
            final(self)@ == after_mark_quitting(old(self)@),
        no_unwind
    {
        if self.state == ExitLifecycleState::Running {
            self.state = ExitLifecycleState::QuittingRequested;
        }
    }

    /// Claims the cleanup. Succeeds from `Running` and `QuittingRequested`
    /// only, so that of several concurrent attempts exactly one runs it.
    pub fn try_begin_cleanup(&mut self) -> (begun: bool)
        ensures
            begun == cleanup_may_begin(old(self)@),
            final(self)@ == after_begin_cleanup(old(self)@),
        no_unwind
    {
        if self.state == ExitLifecycleState::Running
            || self.state == ExitLifecycleState::QuittingRequested {
            self.state = ExitLifecycleState::CleanupInProgress;
            return true;
        }
        false
    }

    /// Lets the next exit request pass, whatever the state was.
    pub fn allow_next_exit_request(&mut self)
        ensures
            final(self)@ == ExitLifecycleState::ReadyToExit,
        no_unwind
    {
        self.state = ExitLifecycleState::ReadyToExit;
    }

    /// Consumes the allowance. Succeeds from `ReadyToExit` only; a `false`
    /// tells the caller that it has to drive the cleanup itself.
    pub fn take_exit_request_allowance(&mut self) -> (taken: bool)
        ensures
            taken == allowance_available(old(self)@),
            final(self)@ == after_take_allowance(old(self)@),
        no_unwind
    {
        if self.state == ExitLifecycleState::ReadyToExit {
            self.state = ExitLifecycleState::Exiting;
            return true;
        }
        false
    }
}

/// A cleanup can be claimed once: from any state in which the claim
/// succeeds, the state becomes `CleanupInProgress`, and from there a second
/// claim fails and leaves the state as it is.
pub proof fn lemma_cleanup_claimed_once(state: ExitLifecycleState)
    requires
        cleanup_may_begin(state),
    ensures
        after_begin_cleanup(state) == ExitLifecycleState::CleanupInProgress,
        !cleanup_may_begin(after_begin_cleanup(state)),
        after_begin_cleanup(after_begin_cleanup(state)) == ExitLifecycleState::CleanupInProgress,
{
}

/// From either state in which nothing has been claimed yet, a quit request,
/// the cleanup, the allowance and its consumption end in `Exiting`, and each
/// step on the way succeeds.
pub proof fn lemma_drain_reaches_exiting(state: ExitLifecycleState)
    requires
        cleanup_may_begin(state),
    ensures
        cleanup_may_begin(after_mark_quitting(state)),
        allowance_available(ExitLifecycleState::ReadyToExit),
        after_take_allowance(ExitLifecycleState::ReadyToExit) == ExitLifecycleState::Exiting,
        after_begin_cleanup(after_mark_quitting(state)) == ExitLifecycleState::CleanupInProgress,
{
}

/// A quit request changes nothing once the machine has left `Running`, and
/// asking twice is the same as asking once.
pub proof fn lemma_mark_quitting_is_idempotent(state: ExitLifecycleState)
    ensures
        state != ExitLifecycleState::Running ==> after_mark_quitting(state) == state,
        after_mark_quitting(after_mark_quitting(state)) == after_mark_quitting(state),
{
}

/// There is no way back: once the cleanup has been claimed, no transition
/// returns to a state in which it could be claimed again.
pub proof fn lemma_no_rollback(state: ExitLifecycleState)
    requires
        cleanup_claimed(state),
    ensures
        cleanup_claimed(after_mark_quitting(state)),
        cleanup_claimed(after_begin_cleanup(state)),
        cleanup_claimed(after_take_allowance(state)),
        cleanup_claimed(ExitLifecycleState::ReadyToExit),
{
}

/// The allowance is consumed by the first taker: a second attempt fails.
pub proof fn lemma_allowance_taken_once(state: ExitLifecycleState)
    ensures
        !allowance_available(after_take_allowance(state)),
{
}

} // verus!

//! Bringing the backend up when the application starts.

use vstd::prelude::*;
use crate::backend_state::BackendState;
use crate::notes::{opt_str_view, opt_view, push_optional, texts};
use crate::text::{owned, str_equal};

verus! {

/// What the start of the application does about the backend.
#[derive(Debug, Clone, Copy, PartialEq, Eq, Structural)]
pub enum StartupAction {
    /// The backend is reachable already; nothing is started.
    AlreadyReachable,
    /// Resolve the launch plan, start the process and wait for it. The
    /// start is marked as in progress; the caller ends it when it is over.
    Launch,
    /// The start has failed.
    Fail,
}

/// Whether the environment switches the start of the backend off: the
/// variable is set to `0`.
pub open spec fn auto_start_disabled(auto_start: Option<Seq<char>>) -> bool {
    auto_start == Some("0"@)
}

/// What the start of the application does about the backend: nothing where
/// it is reachable; a failure where the start is switched off or another
/// start is in progress; a launch otherwise.
pub open spec fn startup_action(state: &BackendState, reachable: bool, auto_start: Option<Seq<char>>) -> StartupAction {
    if reachable {
        StartupAction::AlreadyReachable
    } else if auto_start_disabled(auto_start) || state.spawning() {
        StartupAction::Fail
    } else {
        StartupAction::Launch
    }
}

/// The message with which the start fails, where it does.
pub open spec fn startup_failure(state: &BackendState, reachable: bool, auto_start: Option<Seq<char>>) -> Option<
    Seq<char>,
> {
    if reachable {
        None
    } else if auto_start_disabled(auto_start) {
        Some("Backend auto-start is disabled (ASTRBOT_BACKEND_AUTO_START=0)."@)
    } else if state.spawning() {
        Some("Backend action already in progress."@)
    } else {
        None
    }
}

/// The lines logged by the decision.
pub open spec fn startup_notes(reachable: bool, auto_start: Option<Seq<char>>) -> Seq<Seq<char>> {
    if reachable {
        seq!["backend already reachable, skip spawn"@]
    } else if auto_start_disabled(auto_start) {
        seq!["backend auto-start disabled by ASTRBOT_BACKEND_AUTO_START=0"@]
    } else {
        Seq::empty()
    }
}

/// What one decision at startup gives.
#[derive(Debug)]
pub struct StartupOutcome {
    pub action: StartupAction,
    pub failure: Option<String>,
    pub notes: Vec<String>,
}

/// Decides what the start of the application does about the backend.
/// `reachable` says whether the backend answers the reachability check,
/// `auto_start` is the text of the variable that can switch the start off.
/// The start is claimed only where a launch follows.
pub fn ensure_backend_ready(state: &mut BackendState, reachable: bool, auto_start: Option<&str>) -> (outcome:
    StartupOutcome)
    ensures
        outcome.action == startup_action(old(state), reachable, opt_str_view(auto_start)),
        opt_view(outcome.failure) == startup_failure(old(state), reachable, opt_str_view(auto_start)),
        texts(outcome.notes@) == startup_notes(reachable, opt_str_view(auto_start)),
        final(state).same_but_flags(old(state)),
        final(state).restarting() == old(state).restarting(),
        final(state).spawning() == (old(state).spawning() || outcome.action
            == StartupAction::Launch),
{
    let mut notes: Vec<String> = Vec::new();
    assert(texts(notes@) =~= Seq::<Seq<char>>::empty());
    if reachable {
        push_optional(&mut notes, Some(owned("backend already reachable, skip spawn")));
        return StartupOutcome { action: StartupAction::AlreadyReachable, failure: None, notes };
    }
    let disabled = match auto_start {
        Some(value) => str_equal(value, "0"),
        None => false,
    };
    if disabled {
        push_optional(
            &mut notes,
            Some(owned("backend auto-start disabled by ASTRBOT_BACKEND_AUTO_START=0")),
        );
        return StartupOutcome {
            action: StartupAction::Fail,
            failure: Some(owned("Backend auto-start is disabled (ASTRBOT_BACKEND_AUTO_START=0).")),
            notes,
        };
    }
    if state.is_backend_spawning() {
        return StartupOutcome {
            action: StartupAction::Fail,
            failure: Some(owned("Backend action already in progress.")),
            notes,
        };
    }
    state.begin_spawn();
    StartupOutcome { action: StartupAction::Launch, failure: None, notes }
}

/// Starts are single-flight: while one is in progress, a second one fails
/// at once, unless the backend is reachable by then; and a start that was
/// switched off or is already under way claims nothing.
pub proof fn lemma_startup_is_single_flight(
    state: &BackendState,
    reachable: bool,
    auto_start: Option<Seq<char>>,
)
    ensures
        state.spawning() && !reachable ==> startup_action(state, reachable, auto_start)
            == StartupAction::Fail,
        startup_action(state, reachable, auto_start) == StartupAction::Fail <==> startup_failure(
            state,
            reachable,
            auto_start,
        ) is Some,
        startup_action(state, reachable, auto_start) == StartupAction::Launch ==> !state.spawning(),
{
}

} // verus!

//! Stopping the managed backend: the worker is told to stop first, then the
//! process is ended by the escalation, and only a process that has ended is
//! forgotten.

use vstd::prelude::*;
use vstd::string::StringExecFns;
use crate::backend_runtime::GRACEFUL_STOP_TIMEOUT_MS;
use crate::backend_state::BackendState;
use crate::notes::opt_view;
use crate::numbers::{decimal_string, decimal_text};
use crate::process_control::{StopEscalation, StopPlatform, StopStage};
use crate::text::owned;

verus! {

/// What the stop of the backend begins with.
#[derive(Debug)]
pub struct StopPlan {
    /// The process that the log rotation worker watched, where one was
    /// running: the caller raises the flag of that worker.
    pub stopped_worker: Option<u32>,
    /// The escalation that ends the managed process, where one is managed.
    /// Without one the stop is over, with success.
    pub escalation: Option<StopEscalation>,
}

/// Begins the stop of the backend: tells the log rotation worker to stop,
/// and sets up the escalation for the managed process with a timeout of
/// ten seconds.
pub fn begin_stop_backend(state: &mut BackendState, platform: StopPlatform) -> (plan: StopPlan)
    ensures
        plan.stopped_worker == old(state).rotator(),
        final(state).rotator() is None,
        final(state).child() == old(state).child(),
        final(state).same_but_child(old(state)),
        plan.escalation.is_some() == old(state).child() is Some,
        plan.escalation.is_some() ==> {
            let escalation = plan.escalation.unwrap();
            &&& escalation.platform() == platform
            &&& Some(escalation.pid()) == old(state).child()
            &&& escalation.timeout_ms() == GRACEFUL_STOP_TIMEOUT_MS
            &&& escalation.spec_stage() == StopStage::Idle
        },
{
    let stopped_worker = state.stop_backend_log_rotation_worker();
    let escalation = match state.managed_child_pid() {
        Some(pid) => Some(StopEscalation::new(platform, pid, GRACEFUL_STOP_TIMEOUT_MS)),
        None => None,
    };
    StopPlan { stopped_worker, escalation }
}

/// The error of a stop whose process did not end.
pub open spec fn stop_timeout_message() -> Seq<char> {
    "Backend process did not exit after "@ + decimal_text(GRACEFUL_STOP_TIMEOUT_MS as nat)
        + "ms graceful stop timeout."@
}

/// Ends the stop of the backend. A process that has ended is forgotten; one
/// that has not stays recorded, so that the stop can be tried again, and
/// the result is the error.
pub fn stop_backend(state: &mut BackendState, exited: bool) -> (failure: Option<String>)
    ensures
        opt_view(failure) == (if exited {
            None
        } else {
            Some(stop_timeout_message())
        }),
        final(state).child() == (if exited {
            None
        } else {
            old(state).child()
        }),
        final(state).rotator() == (if exited {
            None
        } else {
            old(state).rotator()
        }),
        final(state).same_but_child(old(state)),
{
    if exited {
        state.clear_child();
        return None;
    }
    let mut message = owned("Backend process did not exit after ");
    message.append(decimal_string(GRACEFUL_STOP_TIMEOUT_MS).as_str());
    message.append("ms graceful stop timeout.");
    Some(message)
}

/// What a request of the interface to stop the backend leads to.
#[derive(Debug, Clone, Copy, PartialEq, Eq, Structural)]
pub enum BridgeStop {
    /// Stop the managed process.
    StopManaged,
    /// Refuse: a backend is running that the supervisor does not manage.
    Refuse,
    /// There is nothing to stop.
    NothingToStop,
}

/// The message for a backend that runs unmanaged.
pub open spec fn unmanaged_backend_message() -> Seq<char> {
    "Backend is running but not managed by desktop process."@
}

/// Decides what a request of the interface to stop the backend leads to.
/// `reachable` says whether the backend answers the reachability check; it
/// is looked at only where no process is managed.
pub fn stop_backend_for_bridge(state: &BackendState, reachable: bool) -> (outcome: (
    BridgeStop,
    Option<String>,
))
    ensures
        outcome.0 == (if state.child() is Some {
            BridgeStop::StopManaged
        } else if reachable {
            BridgeStop::Refuse
        } else {
            BridgeStop::NothingToStop
        }),
        opt_view(outcome.1) == (if state.child() is None && reachable {
            Some(unmanaged_backend_message())
        } else {
            None
        }),
{
    if state.has_managed_child() {
        return (BridgeStop::StopManaged, None);
    }
    if reachable {
        return (
            BridgeStop::Refuse,
            Some(owned("Backend is running but not managed by desktop process.")),
        );
    }
    (BridgeStop::NothingToStop, None)
}

} // verus!

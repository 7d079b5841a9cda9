//! What the supervisor knows of its backend: the process it manages, the
//! worker that rotates the log of that process, the token for restarts, the
//! exit lifecycle and the two single-flight flags.
//!
//! The state keeps one rule whatever is done to it: a log rotation worker
//! exists only for the process that is managed. A worker is started after
//! the process is recorded and is told to stop before the process is
//! forgotten or replaced.

use vstd::prelude::*;
use vstd::string::StringExecFns;
use crate::backend_http::{normalize_backend_url, normalized_backend_url};
use crate::backend_restart::{sanitize_auth_token, sanitized_auth_token};
use crate::exit_events::{
    exit_event_notes, exit_requested_action, exit_requested_notes, handle_exit_event,
    handle_exit_requested, ExitRequestAction,
};
use crate::exit_state::{
    after_begin_cleanup, after_mark_quitting, after_take_allowance, allowance_available,
    cleanup_may_begin, ExitLifecycleState, ExitStateMachine,
};
use crate::notes::{opt_str_view, opt_view, texts};
use crate::numbers::{decimal_string, decimal_text};
use crate::process_control::ChildPoll;
use crate::text::owned;

verus! {

/// The state of the backend as the interface is told of it.
#[derive(Debug, Clone, Copy, PartialEq, Eq, Structural)]
pub struct BackendBridgeState {
    pub running: bool,
    pub spawning: bool,
    pub restarting: bool,
    pub can_manage: bool,
}

/// The outcome of an action as the interface is told of it.
#[derive(Debug)]
pub struct BackendBridgeResult {
    pub ok: bool,
    pub reason: Option<String>,
}

/// The state of one supervisor.
#[derive(Debug)]
pub struct BackendState {
    backend_url: String,
    child_pid: Option<u32>,
    log_rotator_pid: Option<u32>,
    restart_auth_token: Option<String>,
    exit_state: ExitStateMachine,
    is_spawning: bool,
    is_restarting: bool,
}

impl BackendState {
    #[verifier::type_invariant]
    /// A log rotation worker watches nothing but the managed process.
    closed spec fn worker_follows_child(&self) -> bool {
        self.log_rotator_pid is Some ==> self.log_rotator_pid == self.child_pid
    }

    /// The backend URL, normalized.
    pub closed spec fn address(&self) -> Seq<char> {
        self.backend_url@
    }

    /// The process id of the managed process, where there is one.
    pub closed spec fn child(&self) -> Option<u32> {
        self.child_pid
    }

    /// The process id that the running log rotation worker watches, where
    /// a worker is running.
    pub closed spec fn rotator(&self) -> Option<u32> {
        self.log_rotator_pid
    }

    /// The token stored for restarts.
    pub closed spec fn token(&self) -> Option<Seq<char>> {
        opt_view(self.restart_auth_token)
    }

    /// Where the exit lifecycle stands.
    pub closed spec fn exit(&self) -> ExitLifecycleState {
        self.exit_state@
    }

    /// A start of the backend is in progress.
    pub closed spec fn spawning(&self) -> bool {
        self.is_spawning
    }

    /// A restart of the backend is in progress.
    pub closed spec fn restarting(&self) -> bool {
        self.is_restarting
    }

    /// Everything but the managed process and its worker is as in `other`.
    pub open spec fn same_but_child(&self, other: &BackendState) -> bool {
        &&& self.address() == other.address()
        &&& self.token() == other.token()
        &&& self.exit() == other.exit()
        &&& self.spawning() == other.spawning()
        &&& self.restarting() == other.restarting()
    }

    /// Everything but the two flags is as in `other`.
    pub open spec fn same_but_flags(&self, other: &BackendState) -> bool {
        &&& self.address() == other.address()
        &&& self.token() == other.token()
        &&& self.exit() == other.exit()
        &&& self.child() == other.child()
        &&& self.rotator() == other.rotator()
    }

    /// Everything but the exit lifecycle is as in `other`.
    pub open spec fn same_but_exit(&self, other: &BackendState) -> bool {
        &&& self.address() == other.address()
        &&& self.token() == other.token()
        &&& self.child() == other.child()
        &&& self.rotator() == other.rotator()
        &&& self.spawning() == other.spawning()
        &&& self.restarting() == other.restarting()
    }

    /// The state at the start of a run: no process, no worker, no token,
    /// `Running`, and nothing in progress. `raw_backend_url` is the
    /// configured URL.
    pub fn new(raw_backend_url: &str) -> (state: Self)
        ensures
            state.address() == normalized_backend_url(raw_backend_url@),
            state.child() is None,
            state.rotator() is None,
            state.token() is None,
            state.exit() == ExitLifecycleState::Running,
            !state.spawning(),
            !state.restarting(),
    {
        BackendState {
            backend_url: normalize_backend_url(raw_backend_url),
            child_pid: None,
            log_rotator_pid: None,
            restart_auth_token: None,
            exit_state: ExitStateMachine::default(),
            is_spawning: false,
            is_restarting: false,
        }
    }

    /// The backend URL.
    pub fn backend_url(&self) -> (address: &str)
        ensures
            address@ == self.address(),
    {
        self.backend_url.as_str()
    }

    /// Whether a process is managed.
    pub fn has_managed_child(&self) -> (managed: bool)
        ensures
            managed == self.child() is Some,
    {
        self.child_pid.is_some()
    }

    /// The process id of the managed process.
    pub fn managed_child_pid(&self) -> (pid: Option<u32>)
        ensures
            pid == self.child(),
    {
        self.child_pid
    }

    /// The process id that the log rotation worker watches, where one is
    /// running. It is never anything but the managed process.
    pub fn log_rotator_pid(&self) -> (pid: Option<u32>)
        ensures
            pid == self.rotator(),
            pid is Some ==> pid == self.child(),
    {
        proof {
            use_type_invariant(self);
        }
        self.log_rotator_pid
    }

    /// Tells the log rotation worker to stop, where one is running. Returns
    /// the process id that the worker watched, so that the caller can raise
    /// the worker's flag.
    pub fn stop_backend_log_rotation_worker(&mut self) -> (stopped: Option<u32>)
        ensures
            stopped == old(self).rotator(),
            final(self).rotator() is None,
            final(self).child() == old(self).child(),
            final(self).same_but_child(old(self)),
    {
        proof {
            use_type_invariant(&*self);
        }
        let stopped = self.log_rotator_pid;
        self.log_rotator_pid = None;
        stopped
    }

    /// Starts a log rotation worker for the process `child_pid`, after
    /// telling the one that is running to stop. A worker is started only
    /// for the process that is managed; `started` says whether one was.
    pub fn start_backend_log_rotation_worker(&mut self, child_pid: u32) -> (outcome: (
        Option<u32>,
        bool,
    ))
        ensures
            outcome.0 == old(self).rotator(),
            outcome.1 == (old(self).child() == Some(child_pid)),
            final(self).rotator() == (if outcome.1 {
                Some(child_pid)
            } else {
                None
            }),
            final(self).child() == old(self).child(),
            final(self).same_but_child(old(self)),
    {
        let stopped = self.stop_backend_log_rotation_worker();
        let started = match self.child_pid {
            Some(pid) => pid == child_pid,
            None => false,
        };
        if started {
            self.log_rotator_pid = Some(child_pid);
        }
        (stopped, started)
    }

    /// Records the process that was just started, and starts its log
    /// rotation worker where `rotate_log` asks for one. Changes nothing
    /// where a process is managed already; `recorded` says whether the
    /// process was taken.
    pub fn record_spawned_child(&mut self, child_pid: u32, rotate_log: bool) -> (recorded: bool)
        ensures
            recorded == old(self).child() is None,
            final(self).child() == (if recorded {
                Some(child_pid)
            } else {
                old(self).child()
            }),
            final(self).rotator() == (if !recorded {
                old(self).rotator()
            } else if rotate_log {
                Some(child_pid)
            } else {
                None
            }),
            final(self).same_but_child(old(self)),
    {
        if self.child_pid.is_some() {
            return false;
        }
        proof {
            use_type_invariant(&*self);
        }
        self.child_pid = Some(child_pid);
        if rotate_log {
            self.log_rotator_pid = Some(child_pid);
        }
        true
    }

    /// Forgets the managed process, after telling its worker to stop.
    /// Returns the process id that a worker watched.
    pub fn clear_child(&mut self) -> (stopped: Option<u32>)
        ensures
            stopped == old(self).rotator(),
            final(self).child() is None,
            final(self).rotator() is None,
            final(self).same_but_child(old(self)),
    {
        proof {
            use_type_invariant(&*self);
        }
        let stopped = self.stop_backend_log_rotation_worker();
        self.child_pid = None;
        stopped
    }

    /// Claims the start of the backend. Fails where a start is in
    /// progress.
    pub fn try_begin_spawn(&mut self) -> (claimed: bool)
        ensures
            claimed == !old(self).spawning(),
            final(self).spawning(),
            final(self).restarting() == old(self).restarting(),
            final(self).same_but_flags(old(self)),
    {
        proof {
            use_type_invariant(&*self);
        }
        if self.is_spawning {
            return false;
        }
        self.is_spawning = true;
        true
    }

    /// Marks a start of the backend as in progress, whether or not one was.
    pub fn begin_spawn(&mut self)
        ensures
            final(self).spawning(),
            final(self).restarting() == old(self).restarting(),
            final(self).same_but_flags(old(self)),
    {
        proof {
            use_type_invariant(&*self);
        }
        self.is_spawning = true;
    }

    /// Marks the start of the backend as over.
    pub fn end_spawn(&mut self)
        ensures
            !final(self).spawning(),
            final(self).restarting() == old(self).restarting(),
            final(self).same_but_flags(old(self)),
    {
        proof {
            use_type_invariant(&*self);
        }
        self.is_spawning = false;
    }

    /// Claims the restart of the backend. Fails where a restart is in
    /// progress.
    pub fn try_begin_restart(&mut self) -> (claimed: bool)
        ensures
            claimed == !old(self).restarting(),
            final(self).restarting(),
            final(self).spawning() == old(self).spawning(),
            final(self).same_but_flags(old(self)),
    {
        proof {
            use_type_invariant(&*self);
        }
        if self.is_restarting {
            return false;
        }
        self.is_restarting = true;
        true
    }

    /// Marks the restart of the backend as over.
    pub fn end_restart(&mut self)
        ensures
            !final(self).restarting(),
            final(self).spawning() == old(self).spawning(),
            final(self).same_but_flags(old(self)),
    {
        proof {
            use_type_invariant(&*self);
        }
        self.is_restarting = false;
    }

    /// Whether a start is in progress.
    pub fn is_backend_spawning(&self) -> (spawning: bool)
        ensures
            spawning == self.spawning(),
    {
        self.is_spawning
    }

    /// Whether a start or a restart is in progress.
    pub fn is_backend_action_in_progress(&self) -> (busy: bool)
        ensures
            busy == (self.spawning() || self.restarting()),
    {
        self.is_spawning || self.is_restarting
    }

    /// The token stored for restarts.
    pub fn get_restart_auth_token(&self) -> (token: Option<String>)
        ensures
            opt_view(token) == self.token(),
    {
        match &self.restart_auth_token {
            Some(token) => Some(token.clone()),
            None => None,
        }
    }

    /// Stores a token that has been checked, for later restarts.
    pub fn store_restart_auth_token(&mut self, token: &str)
        ensures
            final(self).token() == Some(token@),
            final(self).address() == old(self).address(),
            final(self).exit() == old(self).exit(),
            final(self).child() == old(self).child(),
            final(self).rotator() == old(self).rotator(),
            final(self).spawning() == old(self).spawning(),
            final(self).restarting() == old(self).restarting(),
    {
        proof {
            use_type_invariant(&*self);
        }
        self.restart_auth_token = Some(owned(token));
    }

    /// Stores the given token for restarts, or none where it is not usable.
    pub fn set_restart_auth_token(&mut self, provided_auth_token: Option<&str>)
        ensures
            final(self).token() == sanitized_auth_token(opt_str_view(provided_auth_token)),
            final(self).address() == old(self).address(),
            final(self).exit() == old(self).exit(),
            final(self).child() == old(self).child(),
            final(self).rotator() == old(self).rotator(),
            final(self).spawning() == old(self).spawning(),
            final(self).restarting() == old(self).restarting(),
    {
        proof {
            use_type_invariant(&*self);
        }
        self.restart_auth_token = sanitize_auth_token(provided_auth_token);
    }

    /// Records a quit request.
    pub fn mark_quitting(&mut self)
        ensures
            final(self).exit() == after_mark_quitting(old(self).exit()),
            final(self).same_but_exit(old(self)),
    {
        proof {
            use_type_invariant(&*self);
        }
        self.exit_state.mark_quitting();
    }

    /// True once anything has asked the application to quit.
    pub fn is_quitting(&self) -> (quitting: bool)
        ensures
            quitting == (self.exit() != ExitLifecycleState::Running),
    {
        self.exit_state.is_quitting()
    }

    /// Claims the cleanup before the exit.
    pub fn try_begin_exit_cleanup(&mut self) -> (begun: bool)
        ensures
            begun == cleanup_may_begin(old(self).exit()),
            final(self).exit() == after_begin_cleanup(old(self).exit()),
            final(self).same_but_exit(old(self)),
    {
        proof {
            use_type_invariant(&*self);
        }
        self.exit_state.try_begin_cleanup()
    }

    /// Lets the next exit request pass.
    pub fn allow_next_exit_request(&mut self)
        ensures
            final(self).exit() == ExitLifecycleState::ReadyToExit,
            final(self).same_but_exit(old(self)),
    {
        proof {
            use_type_invariant(&*self);
        }
        self.exit_state.allow_next_exit_request();
    }

    /// Consumes the allowance for an exit request.
    pub fn take_exit_request_allowance(&mut self) -> (taken: bool)
        ensures
            taken == allowance_available(old(self).exit()),
            final(self).exit() == after_take_allowance(old(self).exit()),
            final(self).same_but_exit(old(self)),
    {
        proof {
            use_type_invariant(&*self);
        }
        self.exit_state.take_exit_request_allowance()
    }

    /// Handles a request to exit: takes the allowance where there is one,
    /// and claims the cleanup where there is none.
    pub fn handle_exit_requested(&mut self) -> (outcome: (ExitRequestAction, Vec<String>))
        ensures
            outcome.0 == exit_requested_action(old(self).exit()),
            texts(outcome.1@) == exit_requested_notes(old(self).exit()),
            final(self).exit() == after_begin_cleanup(after_take_allowance(old(self).exit())),
            final(self).same_but_exit(old(self)),
    {
        proof {
            use_type_invariant(&*self);
        }
        let mut machine = self.exit_state;
        let outcome = handle_exit_requested(&mut machine);
        self.exit_state = machine;
        outcome
    }

    /// Handles the exit itself: where no cleanup has been claimed, this
    /// caller claims it and has to stop the backend.
    pub fn handle_exit_event(&mut self) -> (outcome: (bool, Vec<String>))
        ensures
            outcome.0 == cleanup_may_begin(old(self).exit()),
            texts(outcome.1@) == exit_event_notes(old(self).exit()),
            final(self).exit() == after_begin_cleanup(old(self).exit()),
            final(self).same_but_exit(old(self)),
    {
        proof {
            use_type_invariant(&*self);
        }
        let mut machine = self.exit_state;
        let outcome = handle_exit_event(&mut machine);
        self.exit_state = machine;
        outcome
    }

    /// The state as the interface is told of it. `running` says whether the
    /// backend answered the reachability check, `plan_resolvable` whether a
    /// launch plan can be made.
    pub fn bridge_state(&self, running: bool, plan_resolvable: bool) -> (state: BackendBridgeState)
        ensures
            state == (BackendBridgeState {
                running,
                spawning: self.spawning(),
                restarting: self.restarting(),
                can_manage: self.child() is Some || plan_resolvable,
            }),
    {
        BackendBridgeState {
            running,
            spawning: self.is_spawning,
            restarting: self.is_restarting,
            can_manage: self.child_pid.is_some() || plan_resolvable,
        }
    }
}

/// The line logged where the worker stops because the process has ended or
/// could not be looked at; `detail` is the exit status or the error.
pub open spec fn worker_stop_note(child_pid: u32, poll: ChildPoll, detail: Seq<char>) -> Option<
    Seq<char>,
> {
    match poll {
        ChildPoll::Running => None,
        ChildPoll::Exited => Some(
            "backend process exited, stop log rotator worker: pid="@ + decimal_text(
                child_pid as nat,
            ) + ", status="@ + detail,
        ),
        ChildPoll::Failed => Some(
            "failed to poll backend process status for log rotator worker pid="@ + decimal_text(
                child_pid as nat,
            ) + ": "@ + detail,
        ),
    }
}

/// Whether the worker for the process `child_pid` goes on: the managed
/// process is still that one, and a look at it found it running. `poll` is
/// what the look showed; it is made only where the process is still that
/// one. The second result is the line to log, where there is one.
pub fn child_matches_pid_and_alive(
    managed_pid: Option<u32>,
    child_pid: u32,
    poll: ChildPoll,
    detail: &str,
) -> (outcome: (bool, Option<String>))
    ensures
        outcome.0 == (managed_pid == Some(child_pid) && poll == ChildPoll::Running),
        opt_view(outcome.1) == (if managed_pid == Some(child_pid) {
            worker_stop_note(child_pid, poll, detail@)
        } else {
            None
        }),
{
    match managed_pid {
        Some(pid) => {
            if pid != child_pid {
                return (false, None);
            }
        },
        None => {
            return (false, None);
        },
    }
    match poll {
        ChildPoll::Running => (true, None),
        ChildPoll::Exited => {
            let mut note = owned("backend process exited, stop log rotator worker: pid=");
            note.append(decimal_string(child_pid as u64).as_str());
            note.append(", status=");
            note.append(detail);
            (false, Some(note))
        },
        ChildPoll::Failed => {
            let mut note = owned(
                "failed to poll backend process status for log rotator worker pid=",
            );
            note.append(decimal_string(child_pid as u64).as_str());
            note.append(": ");
            note.append(detail);
            (false, Some(note))
        },
    }
}

} // verus!

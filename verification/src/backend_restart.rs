//! Restarting the backend: which way to take, how the request to the
//! backend is judged, and how the restart is verified afterwards.

use vstd::prelude::*;
use vstd::string::StringExecFns;
use vstd::utf8::encode_utf8;
use crate::backend_http::{
    build_backend_request, port_or_80, request_target, request_text, request_url,
    sanitize_authorization_token, sanitized_token, authorization_header, BackendRequest,
};
use crate::backend_http::payload_of;
use crate::backend_runtime::{
    GRACEFUL_RESTART_POLL_INTERVAL_MS, GRACEFUL_RESTART_REQUEST_TIMEOUT_MS,
    GRACEFUL_RESTART_START_TIME_TIMEOUT_MS,
};
use crate::backend_state::BackendState;
use crate::http_response::{
    backend_start_time, http_json_document, http_status_code, parse_backend_start_time,
    parse_http_json_response, parse_http_status_code,
};
use crate::notes::{note_list, opt_str_view, opt_view, push_optional, texts};
use crate::numbers::{decimal_string, decimal_text};
use crate::text::owned;
use crate::urls::url_host;

verus! {

/// The ways to restart the backend.
#[derive(Debug, Clone, Copy, PartialEq, Eq, Structural)]
pub enum RestartStrategy {
    /// Stop the process and start it anew, without asking the backend.
    ManagedSkipGraceful,
    /// Ask the backend to restart itself; where that fails, stop the
    /// process and start it anew.
    ManagedWithGracefulFallback,
    /// Ask the backend to restart itself; there is no process to stop.
    UnmanagedWithGracefulProbe,
}

/// The strategy for a platform, a packaging and an ownership: a managed,
/// packaged backend on Windows is not asked; any other managed backend is
/// asked first; an unmanaged one can only be asked.
pub open spec fn restart_strategy(is_windows: bool, packaged_mode: bool, has_managed_child: bool) -> RestartStrategy {
    if is_windows && packaged_mode && has_managed_child {
        RestartStrategy::ManagedSkipGraceful
    } else if has_managed_child {
        RestartStrategy::ManagedWithGracefulFallback
    } else {
        RestartStrategy::UnmanagedWithGracefulProbe
    }
}

/// Chooses the way to restart the backend.
pub fn compute_restart_strategy(is_windows: bool, packaged_mode: bool, has_managed_child: bool) -> (strategy:
    RestartStrategy)
    ensures
        strategy == restart_strategy(is_windows, packaged_mode, has_managed_child),
{
    if is_windows && packaged_mode && has_managed_child {
        RestartStrategy::ManagedSkipGraceful
    } else if has_managed_child {
        RestartStrategy::ManagedWithGracefulFallback
    } else {
        RestartStrategy::UnmanagedWithGracefulProbe
    }
}

/// The strategy depends on nothing but its three inputs, and each strategy
/// belongs to exactly the inputs the table gives: an unmanaged backend is
/// never stopped by the supervisor, and only a managed, packaged backend on
/// Windows is restarted without being asked.
pub proof fn lemma_restart_strategy_table(is_windows: bool, packaged_mode: bool, has_managed_child: bool)
    ensures
        restart_strategy(is_windows, packaged_mode, has_managed_child)
            == RestartStrategy::ManagedSkipGraceful <==> (is_windows && packaged_mode
            && has_managed_child),
        restart_strategy(is_windows, packaged_mode, has_managed_child)
            == RestartStrategy::UnmanagedWithGracefulProbe <==> !has_managed_child,
        restart_strategy(is_windows, packaged_mode, has_managed_child)
            == RestartStrategy::ManagedWithGracefulFallback <==> (has_managed_child && !(is_windows
            && packaged_mode)),
        restart_strategy(true, true, true) == RestartStrategy::ManagedSkipGraceful,
        restart_strategy(false, true, true) == RestartStrategy::ManagedWithGracefulFallback,
        restart_strategy(false, false, false) == RestartStrategy::UnmanagedWithGracefulProbe,
{
}

/// The token to keep for later restarts: the given one where it may go into
/// a request, and none otherwise.
pub open spec fn sanitized_auth_token(auth_token: Option<Seq<char>>) -> Option<Seq<char>> {
    match auth_token {
        Some(token) => sanitized_token(token),
        None => None,
    }
}

/// Checks a token that the interface handed over.
pub fn sanitize_auth_token(auth_token: Option<&str>) -> (clean: Option<String>)
    ensures
        opt_view(clean) == sanitized_auth_token(opt_str_view(auth_token)),
{
    match auth_token {
        Some(token) => match sanitize_authorization_token(token) {
            Some(clean) => Some(owned(clean)),
            None => None,
        },
        None => None,
    }
}

/// The token that a restart uses: the given one where it is usable, else
/// the stored one.
pub open spec fn restart_token(provided: Option<Seq<char>>, stored: Option<Seq<char>>) -> Option<
    Seq<char>,
> {
    match sanitized_auth_token(provided) {
        Some(token) => Some(token),
        None => stored,
    }
}

/// Picks the token for a restart, and stores the given one where it is
/// usable. The stored token is what later restarts fall back on.
pub fn resolve_restart_auth_token(provided: Option<&str>, stored: &mut Option<String>) -> (token:
    Option<String>)
    ensures
        opt_view(token) == restart_token(opt_str_view(provided), opt_view(*old(stored))),
        opt_view(*final(stored)) == restart_token(opt_str_view(provided), opt_view(*old(stored))),
{
    match sanitize_auth_token(provided) {
        Some(token) => {
            *stored = Some(token.clone());
            Some(token)
        },
        None => match stored {
            Some(kept) => Some(kept.clone()),
            None => None,
        },
    }
}

/// Replaces the stored token by the given one, or by none where the given
/// one is not usable.
pub fn set_restart_auth_token(stored: &mut Option<String>, provided: Option<&str>)
    ensures
        opt_view(*final(stored)) == sanitized_auth_token(opt_str_view(provided)),
{
    *stored = sanitize_auth_token(provided);
}

/// Whether the backend took the request to restart: any status of 200..=299
/// says so, and so does a connection that gave no status at all; any other
/// status is a rejection.
pub open spec fn restart_request_accepted(status_code: Option<u16>) -> bool {
    match status_code {
        Some(code) => 200 <= code < 300,
        None => true,
    }
}

/// The line logged for the answer to the request to restart.
pub open spec fn restart_request_note(status_code: Option<u16>) -> Option<Seq<char>> {
    match status_code {
        Some(code) => if 200 <= code < 300 {
            None
        } else {
            Some("graceful restart request rejected with HTTP status "@ + decimal_text(code as nat))
        },
        None => Some(
            "graceful restart request returned no HTTP status; will verify restart by polling backend"@,
        ),
    }
}

/// Judges the answer to the request to restart. The second result is the
/// line to log, where there is one.
pub fn request_graceful_restart(status_code: Option<u16>) -> (outcome: (bool, Option<String>))
    ensures
        outcome.0 == restart_request_accepted(status_code),
        opt_view(outcome.1) == restart_request_note(status_code),
{
    match status_code {
        Some(code) => {
            if 200 <= code && code < 300 {
                (true, None)
            } else {
                let mut note = owned("graceful restart request rejected with HTTP status ");
                note.append(decimal_string(code as u64).as_str());
                (false, Some(note))
            }
        },
        None => (
            true,
            Some(
                owned(
                    "graceful restart request returned no HTTP status; will verify restart by polling backend",
                ),
            ),
        ),
    }
}

/// What one look at the backend during the wait showed.
#[derive(Debug, Clone, Copy, PartialEq, Eq, Structural)]
pub enum BackendProbe {
    /// The backend could not be reached.
    Unreachable,
    /// The backend could be reached; the field holds the start time it
    /// reported, where it reported one.
    Reachable(Option<i64>),
}

/// What to do after a look at the backend.
#[derive(Debug, Clone, Copy, PartialEq, Eq, Structural)]
pub enum RestartWaitStep {
    /// The backend has restarted.
    Completed,
    /// The time is used up.
    TimedOut,
    /// Sleep for so many milliseconds, then look again.
    SleepThenProbe(u64),
}

/// Whether a look shows that the backend has restarted: it is reachable,
/// and either reports a start time other than the one before the restart,
/// or no start time was known before and the backend has been seen down.
pub open spec fn restart_observed(
    previous_start_time: Option<i64>,
    saw_backend_down: bool,
    probe: BackendProbe,
) -> bool {
    match probe {
        BackendProbe::Unreachable => false,
        BackendProbe::Reachable(current) => match (previous_start_time, current) {
            (Some(previous), Some(current)) => current != previous,
            (None, _) => saw_backend_down,
            _ => false,
        },
    }
}

/// The wait for a backend that was asked to restart itself.
#[derive(Debug, Clone, Copy, PartialEq, Eq, Structural)]
pub struct GracefulRestartWait {
    /// The start time that the backend reported before the restart.
    pub previous_start_time: Option<i64>,
    /// How long the wait may take, in milliseconds.
    pub max_wait_ms: u64,
    /// Whether the backend has been found unreachable during the wait.
    pub saw_backend_down: bool,
}

impl GracefulRestartWait {
    /// The wait as it stands after a look.
    pub open spec fn after(self, probe: BackendProbe) -> GracefulRestartWait {
        GracefulRestartWait {
            saw_backend_down: self.saw_backend_down || probe == BackendProbe::Unreachable,
            ..self
        }
    }

    /// The step that follows a look made `elapsed_ms` into the wait.
    pub open spec fn step_for(self, probe: BackendProbe, elapsed_ms: u64) -> RestartWaitStep {
        if restart_observed(self.previous_start_time, self.saw_backend_down, probe) {
            RestartWaitStep::Completed
        } else if elapsed_ms >= self.max_wait_ms {
            RestartWaitStep::TimedOut
        } else {
            RestartWaitStep::SleepThenProbe(GRACEFUL_RESTART_POLL_INTERVAL_MS)
        }
    }

    /// A wait that has seen nothing yet.
    pub fn new(previous_start_time: Option<i64>, max_wait_ms: u64) -> (wait: Self)
        ensures
            wait == (GracefulRestartWait {
                previous_start_time,
                max_wait_ms,
                saw_backend_down: false,
            }),
    {
        GracefulRestartWait { previous_start_time, max_wait_ms, saw_backend_down: false }
    }

    /// Takes in one look at the backend, made `elapsed_ms` into the wait,
    /// and decides how to go on.
    pub fn observe(&mut self, probe: BackendProbe, elapsed_ms: u64) -> (step: RestartWaitStep)
        ensures
            *final(self) == old(self).after(probe),
            step == old(self).step_for(probe, elapsed_ms),
    {
        match probe {
            BackendProbe::Unreachable => {
                self.saw_backend_down = true;
            },
            BackendProbe::Reachable(current) => {
                match (self.previous_start_time, current) {
                    (Some(previous), Some(current)) => {
                        if current != previous {
                            return RestartWaitStep::Completed;
                        }
                    },
                    (None, _) => {
                        if self.saw_backend_down {
                            return RestartWaitStep::Completed;
                        }
                    },
                    _ => {},
                }
            },
        }
        if elapsed_ms >= self.max_wait_ms {
            RestartWaitStep::TimedOut
        } else {
            RestartWaitStep::SleepThenProbe(GRACEFUL_RESTART_POLL_INTERVAL_MS)
        }
    }
}

/// The error of a wait that ran out of time.
pub open spec fn restart_timeout_message(max_wait_ms: u64) -> Seq<char> {
    "Timed out after "@ + decimal_text(max_wait_ms as nat) + "ms waiting for graceful restart."@
}

/// Renders the error of a wait that ran out of time.
pub fn describe_restart_timeout(max_wait_ms: u64) -> (message: String)
    ensures
        message@ == restart_timeout_message(max_wait_ms),
{
    let mut message = owned("Timed out after ");
    message.append(decimal_string(max_wait_ms).as_str());
    message.append("ms waiting for graceful restart.");
    message
}

/// How a run of looks ends: with success at the first look that shows the
/// restart, with a timeout at the first look at which the time is used up,
/// and undecided where the run ends before either.
pub open spec fn restart_wait_outcome(
    wait: GracefulRestartWait,
    looks: Seq<(BackendProbe, u64)>,
) -> Option<Result<(), Seq<char>>>
    decreases looks.len(),
{
    if looks.len() == 0 {
        None
    } else {
        match wait.step_for(looks[0].0, looks[0].1) {
            RestartWaitStep::Completed => Some(Ok(())),
            RestartWaitStep::TimedOut => Some(Err(restart_timeout_message(wait.max_wait_ms))),
            RestartWaitStep::SleepThenProbe(_) => restart_wait_outcome(
                wait.after(looks[0].0),
                looks.drop_first(),
            ),
        }
    }
}

/// The view of an outcome of a wait.
pub open spec fn wait_result_view(outcome: Option<Result<(), String>>) -> Option<
    Result<(), Seq<char>>,
> {
    match outcome {
        Some(Ok(())) => Some(Ok(())),
        Some(Err(error)) => Some(Err(error@)),
        None => None,
    }
}

/// Runs the wait over a run of looks at the backend, each with the time at
/// which it was made. `None` where the run ends before the wait does.
pub fn wait_for_graceful_restart(
    previous_start_time: Option<i64>,
    max_wait_ms: u64,
    looks: &[(BackendProbe, u64)],
) -> (outcome: Option<Result<(), String>>)
    ensures
        wait_result_view(outcome) == restart_wait_outcome(
            GracefulRestartWait { previous_start_time, max_wait_ms, saw_backend_down: false },
            looks@,
        ),
{
    let mut wait = GracefulRestartWait::new(previous_start_time, max_wait_ms);
    let ghost start = wait;
    let mut i: usize = 0;
    assert(looks@.skip(0) =~= looks@);
    while i < looks.len()
        invariant
            i <= looks.len(),
            wait.max_wait_ms == max_wait_ms,
            start == (GracefulRestartWait {
                previous_start_time,
                max_wait_ms,
                saw_backend_down: false,
            }),
            restart_wait_outcome(start, looks@) == restart_wait_outcome(wait, looks@.skip(i as int)),
        decreases looks.len() - i,
    {
        proof {
            assert(looks@.skip(i as int)[0] == looks@[i as int]);
            assert(looks@.skip(i as int).drop_first() =~= looks@.skip(i + 1));
        }
        let look = looks[i];
        match wait.observe(look.0, look.1) {
            RestartWaitStep::Completed => {
                return Some(Ok(()));
            },
            RestartWaitStep::TimedOut => {
                return Some(Err(describe_restart_timeout(max_wait_ms)));
            },
            RestartWaitStep::SleepThenProbe(_) => {},
        }
        i += 1;
    }
    None
}

/// With a start time known from before, the wait succeeds at the first
/// look that finds the backend reachable with another start time, provided
/// that the time was not used up at an earlier look; looks that find the
/// backend down, or up with the old or with no start time, do not end it.
pub proof fn lemma_restart_seen_by_new_start_time(
    wait: GracefulRestartWait,
    looks: Seq<(BackendProbe, u64)>,
    at: int,
    previous: i64,
    current: i64,
)
    requires
        wait.previous_start_time == Some(previous),
        0 <= at < looks.len(),
        looks[at].0 == BackendProbe::Reachable(Some(current)),
        current != previous,
        forall|i: int|
            0 <= i < at ==> (#[trigger] looks[i]).1 < wait.max_wait_ms && looks[i].0
                != BackendProbe::Reachable(Some(current)) && (looks[i].0 matches BackendProbe::Reachable(
                Some(earlier),
            ) ==> earlier == previous),
    ensures
        restart_wait_outcome(wait, looks) == Some(Ok::<(), Seq<char>>(())),
    decreases at,
{
    if at > 0 {
        let rest = looks.drop_first();
        assert(rest[at - 1] == looks[at]);
        assert forall|i: int| 0 <= i < at - 1 implies (#[trigger] rest[i]).1 < wait.max_wait_ms
            && rest[i].0 != BackendProbe::Reachable(Some(current)) && (rest[i].0 matches BackendProbe::Reachable(
            Some(earlier),
        ) ==> earlier == previous) by {
            assert(rest[i] == looks[i + 1]);
        }
        lemma_restart_seen_by_new_start_time(wait.after(looks[0].0), rest, at - 1, previous, current);
    }
}

/// Without a start time from before, the wait succeeds at the first look
/// that finds the backend reachable after a look that found it down, and
/// never at a look that finds it down.
pub proof fn lemma_restart_seen_by_outage(wait: GracefulRestartWait, probe: BackendProbe, elapsed_ms: u64)
    requires
        wait.previous_start_time is None,
    ensures
        wait.step_for(probe, elapsed_ms) == RestartWaitStep::Completed <==> (wait.saw_backend_down
            && probe is Reachable),
        wait.after(BackendProbe::Unreachable).step_for(
            BackendProbe::Reachable(None),
            elapsed_ms,
        ) == RestartWaitStep::Completed,
        wait.step_for(BackendProbe::Unreachable, elapsed_ms) != RestartWaitStep::Completed,
{
}

/// A wait never goes on past a look at which the time is used up.
pub proof fn lemma_restart_wait_is_bounded(wait: GracefulRestartWait, probe: BackendProbe, elapsed_ms: u64)
    requires
        elapsed_ms >= wait.max_wait_ms,
    ensures
        !(wait.step_for(probe, elapsed_ms) is SleepThenProbe),
{
}

/// How far a restart has come.
#[derive(Debug, Clone, Copy, PartialEq, Eq, Structural)]
pub enum RestartStage {
    /// Nothing has happened yet.
    Idle,
    /// The launch plan is being resolved.
    ResolvingPlan,
    /// The start time of the running backend is being asked for.
    FetchingStartTime,
    /// The backend is being asked to restart itself.
    RequestingGraceful,
    /// The caller waits for the backend to come back.
    WaitingGraceful,
    /// The managed process is being stopped.
    Stopping,
    /// A new process is being started.
    Starting,
    /// The caller waits for the new process to become ready.
    WaitingReady,
    /// The restart is over.
    Finished,
}

/// What the caller reports to a restart. A failure is reported with its
/// message, a success with `None`.
#[derive(Debug)]
pub enum RestartEvent {
    /// The restart is to begin.
    Begin,
    /// The launch plan was resolved; the field says whether it is the plan
    /// of a packaged backend.
    PlanResolved(bool),
    /// The launch plan could not be resolved.
    PlanFailed(String),
    /// The start time of the running backend, where it reported one.
    StartTimeFetched(Option<i64>),
    /// The status with which the backend answered the request to restart,
    /// where it gave one.
    GracefulResponse(Option<u16>),
    /// The wait for the backend to come back is over.
    GracefulWaitFinished(Option<String>),
    /// The stop of the managed process is over.
    BackendStopped(Option<String>),
    /// The start of the new process is over.
    BackendStarted(Option<String>),
    /// The wait for the new process is over.
    BackendReady(Option<String>),
}

/// What the caller is to do next.
#[derive(Debug, Clone, Copy, PartialEq, Eq, Structural)]
pub enum RestartAction {
    /// Resolve the launch plan.
    ResolvePlan,
    /// Ask the running backend for its start time.
    FetchStartTime,
    /// Send the request to restart, with the token of the restart.
    SendGracefulRequest,
    /// Wait for the backend to come back, with the start time from before.
    WaitForGracefulRestart,
    /// Stop the managed process.
    StopBackend,
    /// Start a new process from the launch plan.
    StartBackend,
    /// Wait for the new process to become ready.
    WaitForBackend,
    /// The restart is over; the field says whether it succeeded.
    Finish(bool),
    /// The event does not fit the stage; nothing has changed.
    Ignore,
}

/// One restart of the backend, from the request to its end.
#[derive(Debug)]
pub struct RestartFlow {
    is_windows: bool,
    stage: RestartStage,
    provided_token: Option<String>,
    auth_token: Option<String>,
    strategy: RestartStrategy,
    packaged_mode: bool,
    previous_start_time: Option<i64>,
}

/// What one step of a restart gives: the action, the message of the failure
/// where the restart ends with one, and the lines to log.
#[derive(Debug)]
pub struct RestartOutcome {
    pub action: RestartAction,
    pub failure: Option<String>,
    pub notes: Vec<String>,
}

/// The message for a caller that finds an action in progress.
pub open spec fn action_in_progress_message() -> Seq<char> {
    "Backend action already in progress."@
}

/// The message of a restart that an unmanaged backend rejected.
pub open spec fn unmanaged_rejection_message() -> Seq<char> {
    "graceful restart request was rejected and backend is not desktop-managed."@
}

/// The line logged where the wait for the backend failed and the
/// supervisor goes on to stop and start the process.
pub open spec fn wait_failed_note(strategy: RestartStrategy, error: Seq<char>) -> Seq<char> {
    if strategy == RestartStrategy::UnmanagedWithGracefulProbe {
        "graceful restart did not complete for unmanaged backend, bootstrap managed restart: "@
            + error
    } else {
        "graceful restart did not complete, fallback to managed restart: "@ + error
    }
}

impl RestartFlow {
    /// How far the restart has come.
    pub closed spec fn spec_stage(&self) -> RestartStage {
        self.stage
    }

    /// The restart runs on Windows.
    pub closed spec fn on_windows(&self) -> bool {
        self.is_windows
    }

    /// The token that was handed over with the request, where it is usable.
    pub closed spec fn provided(&self) -> Option<Seq<char>> {
        opt_view(self.provided_token)
    }

    /// The token that the restart uses.
    pub closed spec fn token(&self) -> Option<Seq<char>> {
        opt_view(self.auth_token)
    }

    /// The strategy, once the plan is resolved.
    pub closed spec fn spec_strategy(&self) -> RestartStrategy {
        self.strategy
    }

    /// The plan is that of a packaged backend.
    pub closed spec fn packaged(&self) -> bool {
        self.packaged_mode
    }

    /// The start time that the backend reported before the restart.
    pub closed spec fn previous(&self) -> Option<i64> {
        self.previous_start_time
    }

    /// The stage that follows `event`, given what the supervisor's state
    /// was before it.
    pub open spec fn next_stage(&self, state: &BackendState, event: RestartEvent) -> RestartStage {
        match (self.spec_stage(), event) {
            (RestartStage::Idle, RestartEvent::Begin) => if state.restarting() {
                RestartStage::Finished
            } else {
                RestartStage::ResolvingPlan
            },
            (RestartStage::ResolvingPlan, RestartEvent::PlanResolved(_)) => RestartStage::FetchingStartTime,
            (RestartStage::ResolvingPlan, RestartEvent::PlanFailed(_)) => RestartStage::Finished,
            (RestartStage::FetchingStartTime, RestartEvent::StartTimeFetched(_)) => if self.spec_strategy()
                == RestartStrategy::ManagedSkipGraceful {
                RestartStage::Stopping
            } else {
                RestartStage::RequestingGraceful
            },
            (RestartStage::RequestingGraceful, RestartEvent::GracefulResponse(status)) => if restart_request_accepted(
                status,
            ) {
                RestartStage::WaitingGraceful
            } else if self.spec_strategy() == RestartStrategy::UnmanagedWithGracefulProbe {
                RestartStage::Finished
            } else {
                RestartStage::Stopping
            },
            (RestartStage::WaitingGraceful, RestartEvent::GracefulWaitFinished(failure)) => if failure is None {
                RestartStage::Finished
            } else {
                RestartStage::Stopping
            },
            (RestartStage::Stopping, RestartEvent::BackendStopped(failure)) => if failure is None {
                RestartStage::Starting
            } else {
                RestartStage::Finished
            },
            (RestartStage::Starting, RestartEvent::BackendStarted(failure)) => if failure is None {
                RestartStage::WaitingReady
            } else {
                RestartStage::Finished
            },
            (RestartStage::WaitingReady, RestartEvent::BackendReady(_)) => RestartStage::Finished,
            _ => self.spec_stage(),
        }
    }

    /// What the caller is to do after `event`.
    pub open spec fn action_for(&self, state: &BackendState, event: RestartEvent) -> RestartAction {
        match (self.spec_stage(), event) {
            (RestartStage::Idle, RestartEvent::Begin) => if state.restarting() {
                RestartAction::Finish(false)
            } else {
                RestartAction::ResolvePlan
            },
            (RestartStage::ResolvingPlan, RestartEvent::PlanResolved(_)) => RestartAction::FetchStartTime,
            (RestartStage::ResolvingPlan, RestartEvent::PlanFailed(_)) => RestartAction::Finish(false),
            (RestartStage::FetchingStartTime, RestartEvent::StartTimeFetched(_)) => if self.spec_strategy()
                == RestartStrategy::ManagedSkipGraceful {
                RestartAction::StopBackend
            } else {
                RestartAction::SendGracefulRequest
            },
            (RestartStage::RequestingGraceful, RestartEvent::GracefulResponse(status)) => if restart_request_accepted(
                status,
            ) {
                RestartAction::WaitForGracefulRestart
            } else if self.spec_strategy() == RestartStrategy::UnmanagedWithGracefulProbe {
                RestartAction::Finish(false)
            } else {
                RestartAction::StopBackend
            },
            (RestartStage::WaitingGraceful, RestartEvent::GracefulWaitFinished(failure)) => if failure is None {
                RestartAction::Finish(true)
            } else {
                RestartAction::StopBackend
            },
            (RestartStage::Stopping, RestartEvent::BackendStopped(failure)) => if failure is None {
                RestartAction::StartBackend
            } else {
                RestartAction::Finish(false)
            },
            (RestartStage::Starting, RestartEvent::BackendStarted(failure)) => if failure is None {
                RestartAction::WaitForBackend
            } else {
                RestartAction::Finish(false)
            },
            (RestartStage::WaitingReady, RestartEvent::BackendReady(failure)) => RestartAction::Finish(
                failure is None,
            ),
            _ => RestartAction::Ignore,
        }
    }

    /// The message with which the restart fails at `event`, where it does.
    pub open spec fn failure_for(&self, state: &BackendState, event: RestartEvent) -> Option<
        Seq<char>,
    > {
        match (self.spec_stage(), event) {
            (RestartStage::Idle, RestartEvent::Begin) => if state.restarting() {
                Some(action_in_progress_message())
            } else {
                None
            },
            (RestartStage::ResolvingPlan, RestartEvent::PlanFailed(error)) => Some(error@),
            (RestartStage::RequestingGraceful, RestartEvent::GracefulResponse(status)) => if !restart_request_accepted(
                status,
            ) && self.spec_strategy() == RestartStrategy::UnmanagedWithGracefulProbe {
                Some(unmanaged_rejection_message())
            } else {
                None
            },
            (RestartStage::Stopping, RestartEvent::BackendStopped(failure)) => opt_view(failure),
            (RestartStage::Starting, RestartEvent::BackendStarted(failure)) => opt_view(failure),
            (RestartStage::WaitingReady, RestartEvent::BackendReady(failure)) => opt_view(failure),
            _ => None,
        }
    }

    /// The lines to log after `event`.
    pub open spec fn notes_for(&self, event: RestartEvent) -> Seq<Seq<char>> {
        match (self.spec_stage(), event) {
            (RestartStage::Idle, RestartEvent::Begin) => seq!["backend restart requested"@],
            (RestartStage::FetchingStartTime, RestartEvent::StartTimeFetched(_)) => if self.spec_strategy()
                == RestartStrategy::ManagedSkipGraceful {
                seq![
                    "skip graceful restart for packaged windows managed backend; using managed restart"@,
                ]
            } else {
                Seq::empty()
            },
            (RestartStage::RequestingGraceful, RestartEvent::GracefulResponse(status)) => note_list(
                restart_request_note(status),
            ) + (if !restart_request_accepted(status) && self.spec_strategy()
                != RestartStrategy::UnmanagedWithGracefulProbe {
                seq!["graceful restart request was rejected, fallback to managed restart"@]
            } else {
                Seq::empty()
            }),
            (RestartStage::WaitingGraceful, RestartEvent::GracefulWaitFinished(failure)) => match failure {
                None => seq!["graceful restart completed via backend api"@],
                Some(error) => seq![wait_failed_note(self.spec_strategy(), error@)],
            },
            _ => Seq::empty(),
        }
    }

    /// A restart that has not begun. `auth_token` is the token that came
    /// with the request.
    pub fn new(auth_token: Option<&str>, is_windows: bool) -> (flow: Self)
        ensures
            flow.spec_stage() == RestartStage::Idle,
            flow.on_windows() == is_windows,
            flow.provided() == sanitized_auth_token(opt_str_view(auth_token)),
    {
        RestartFlow {
            is_windows,
            stage: RestartStage::Idle,
            provided_token: sanitize_auth_token(auth_token),
            auth_token: None,
            strategy: RestartStrategy::UnmanagedWithGracefulProbe,
            packaged_mode: false,
            previous_start_time: None,
        }
    }

    /// The stage that the restart is in.
    pub fn stage(&self) -> (stage: RestartStage)
        ensures
            stage == self.spec_stage(),
    {
        self.stage
    }

    /// The token that goes into the request to the backend.
    pub fn auth_token(&self) -> (token: Option<&str>)
        ensures
            opt_str_view(token) == self.token(),
    {
        crate::notes::opt_as_str(&self.auth_token)
    }

    /// The strategy that was chosen once the plan was resolved.
    pub fn strategy(&self) -> (strategy: RestartStrategy)
        ensures
            strategy == self.spec_strategy(),
    {
        self.strategy
    }

    /// Whether the plan is that of a packaged backend.
    pub fn packaged_mode(&self) -> (packaged: bool)
        ensures
            packaged == self.packaged(),
    {
        self.packaged_mode
    }

    /// The start time that the backend reported before the restart.
    pub fn previous_start_time(&self) -> (start_time: Option<i64>)
        ensures
            start_time == self.previous(),
    {
        self.previous_start_time
    }

    /// Takes one event and says what to do next. The flags of the state are
    /// claimed at the beginning and given back when the restart is over:
    /// `restarting` is held from an accepted `Begin` to the end, `spawning`
    /// from `StartBackend` to the end. The token that came with the request
    /// is stored once the plan is resolved.
    pub fn step(&mut self, state: &mut BackendState, event: RestartEvent) -> (outcome:
        RestartOutcome)
        ensures
            outcome.action == old(self).action_for(old(state), event),
            opt_view(outcome.failure) == old(self).failure_for(old(state), event),
            texts(outcome.notes@) == old(self).notes_for(event),
            final(self).spec_stage() == old(self).next_stage(old(state), event),
            final(self).on_windows() == old(self).on_windows(),
            final(self).provided() == old(self).provided(),
            final(state).address() == old(state).address(),
            final(state).exit() == old(state).exit(),
            final(state).child() == old(state).child(),
            final(state).rotator() == old(state).rotator(),
            final(state).restarting() == (if old(self).action_for(old(state), event) is Finish
                && !(old(self).spec_stage() == RestartStage::Idle) {
                false
            } else if old(self).action_for(old(state), event) == RestartAction::ResolvePlan {
                true
            } else {
                old(state).restarting()
            }),
            final(state).spawning() == (if old(self).action_for(old(state), event)
                == RestartAction::StartBackend {
                true
            } else if old(self).action_for(old(state), event) is Finish && (old(self).spec_stage()
                == RestartStage::Starting || old(self).spec_stage() == RestartStage::WaitingReady) {
                false
            } else {
                old(state).spawning()
            }),
            (old(self).spec_stage(), event) matches (
                RestartStage::ResolvingPlan,
                RestartEvent::PlanResolved(packaged),
            ) ==> {
                &&& final(self).packaged() == packaged
                &&& final(self).spec_strategy() == restart_strategy(
                    old(self).on_windows(),
                    packaged,
                    old(state).child() is Some,
                )
                &&& final(self).token() == (match old(self).provided() {
                    Some(token) => Some(token),
                    None => old(state).token(),
                })
                &&& final(state).token() == final(self).token()
            },
            !((old(self).spec_stage(), event) matches (
                RestartStage::ResolvingPlan,
                RestartEvent::PlanResolved(_),
            )) ==> {
                &&& final(self).packaged() == old(self).packaged()
                &&& final(self).spec_strategy() == old(self).spec_strategy()
                &&& final(self).token() == old(self).token()
                &&& final(state).token() == old(state).token()
            },
            final(self).previous() == (match (old(self).spec_stage(), event) {
                (RestartStage::FetchingStartTime, RestartEvent::StartTimeFetched(start_time)) => start_time,
                _ => old(self).previous(),
            }),
    {
        let mut notes: Vec<String> = Vec::new();
        assert(texts(notes@) =~= Seq::<Seq<char>>::empty());
        let stage = self.stage;
        match event {
            RestartEvent::Begin => {
                if stage == RestartStage::Idle {
                    push_optional(&mut notes, Some(owned("backend restart requested")));
                    if !state.try_begin_restart() {
                        self.stage = RestartStage::Finished;
                        return RestartOutcome {
                            action: RestartAction::Finish(false),
                            failure: Some(owned("Backend action already in progress.")),
                            notes,
                        };
                    }
                    self.stage = RestartStage::ResolvingPlan;
                    return RestartOutcome { action: RestartAction::ResolvePlan, failure: None, notes };
                }
            },
            RestartEvent::PlanResolved(packaged_mode) => {
                if stage == RestartStage::ResolvingPlan {
                    self.packaged_mode = packaged_mode;
                    self.strategy = compute_restart_strategy(
                        self.is_windows,
                        packaged_mode,
                        state.has_managed_child(),
                    );
                    match &self.provided_token {
                        Some(token) => {
                            state.store_restart_auth_token(token.as_str());
                            self.auth_token = Some(token.clone());
                        },
                        None => {
                            self.auth_token = state.get_restart_auth_token();
                        },
                    }
                    self.stage = RestartStage::FetchingStartTime;
                    return RestartOutcome {
                        action: RestartAction::FetchStartTime,
                        failure: None,
                        notes,
                    };
                }
            },
            RestartEvent::PlanFailed(error) => {
                if stage == RestartStage::ResolvingPlan {
                    state.end_restart();
                    self.stage = RestartStage::Finished;
                    return RestartOutcome {
                        action: RestartAction::Finish(false),
                        failure: Some(error),
                        notes,
                    };
                }
            },
            RestartEvent::StartTimeFetched(start_time) => {
                if stage == RestartStage::FetchingStartTime {
                    self.previous_start_time = start_time;
                    if self.strategy == RestartStrategy::ManagedSkipGraceful {
                        push_optional(
                            &mut notes,
                            Some(
                                owned(
                                    "skip graceful restart for packaged windows managed backend; using managed restart",
                                ),
                            ),
                        );
                        self.stage = RestartStage::Stopping;
                        return RestartOutcome {
                            action: RestartAction::StopBackend,
                            failure: None,
                            notes,
                        };
                    }
                    self.stage = RestartStage::RequestingGraceful;
                    return RestartOutcome {
                        action: RestartAction::SendGracefulRequest,
                        failure: None,
                        notes,
                    };
                }
            },
            RestartEvent::GracefulResponse(status) => {
                if stage == RestartStage::RequestingGraceful {
                    let (accepted, note) = request_graceful_restart(status);
                    push_optional(&mut notes, note);
                    if accepted {
                        assert(texts(notes@) =~= old(self).notes_for(event));
                        self.stage = RestartStage::WaitingGraceful;
                        return RestartOutcome {
                            action: RestartAction::WaitForGracefulRestart,
                            failure: None,
                            notes,
                        };
                    }
                    if self.strategy == RestartStrategy::UnmanagedWithGracefulProbe {
                        assert(texts(notes@) =~= old(self).notes_for(event));
                        state.end_restart();
                        self.stage = RestartStage::Finished;
                        return RestartOutcome {
                            action: RestartAction::Finish(false),
                            failure: Some(
                                owned(
                                    "graceful restart request was rejected and backend is not desktop-managed.",
                                ),
                            ),
                            notes,
                        };
                    }
                    push_optional(
                        &mut notes,
                        Some(owned("graceful restart request was rejected, fallback to managed restart")),
                    );
                    self.stage = RestartStage::Stopping;
                    return RestartOutcome { action: RestartAction::StopBackend, failure: None, notes };
                }
            },
            RestartEvent::GracefulWaitFinished(failure) => {
                if stage == RestartStage::WaitingGraceful {
                    match failure {
                        None => {
                            push_optional(
                                &mut notes,
                                Some(owned("graceful restart completed via backend api")),
                            );
                            state.end_restart();
                            self.stage = RestartStage::Finished;
                            return RestartOutcome {
                                action: RestartAction::Finish(true),
                                failure: None,
                                notes,
                            };
                        },
                        Some(error) => {
                            let mut line = owned(
                                if self.strategy == RestartStrategy::UnmanagedWithGracefulProbe {
                                    "graceful restart did not complete for unmanaged backend, bootstrap managed restart: "
                                } else {
                                    "graceful restart did not complete, fallback to managed restart: "
                                },
                            );
                            line.append(error.as_str());
                            push_optional(&mut notes, Some(line));
                            self.stage = RestartStage::Stopping;
                            return RestartOutcome {
                                action: RestartAction::StopBackend,
                                failure: None,
                                notes,
                            };
                        },
                    }
                }
            },
            RestartEvent::BackendStopped(failure) => {
                if stage == RestartStage::Stopping {
                    match failure {
                        None => {
                            state.begin_spawn();
                            self.stage = RestartStage::Starting;
                            return RestartOutcome {
                                action: RestartAction::StartBackend,
                                failure: None,
                                notes,
                            };
                        },
                        Some(error) => {
                            state.end_restart();
                            self.stage = RestartStage::Finished;
                            return RestartOutcome {
                                action: RestartAction::Finish(false),
                                failure: Some(error),
                                notes,
                            };
                        },
                    }
                }
            },
            RestartEvent::BackendStarted(failure) => {
                if stage == RestartStage::Starting {
                    match failure {
                        None => {
                            self.stage = RestartStage::WaitingReady;
                            return RestartOutcome {
                                action: RestartAction::WaitForBackend,
                                failure: None,
                                notes,
                            };
                        },
                        Some(error) => {
                            state.end_spawn();
                            state.end_restart();
                            self.stage = RestartStage::Finished;
                            return RestartOutcome {
                                action: RestartAction::Finish(false),
                                failure: Some(error),
                                notes,
                            };
                        },
                    }
                }
            },
            RestartEvent::BackendReady(failure) => {
                if stage == RestartStage::WaitingReady {
                    state.end_spawn();
                    state.end_restart();
                    self.stage = RestartStage::Finished;
                    let succeeded = failure.is_none();
                    return RestartOutcome {
                        action: RestartAction::Finish(succeeded),
                        failure,
                        notes,
                    };
                }
            },
        }
        RestartOutcome { action: RestartAction::Ignore, failure: None, notes }
    }
}

/// How many events a restart can still take before it is over.
pub open spec fn restart_stage_rank(stage: RestartStage) -> nat {
    match stage {
        RestartStage::Idle => 8,
        RestartStage::ResolvingPlan => 7,
        RestartStage::FetchingStartTime => 6,
        RestartStage::RequestingGraceful => 5,
        RestartStage::WaitingGraceful => 4,
        RestartStage::Stopping => 3,
        RestartStage::Starting => 2,
        RestartStage::WaitingReady => 1,
        RestartStage::Finished => 0,
    }
}

/// Every event that is not ignored brings a restart nearer to its end, and
/// a restart ends exactly with the action `Finish`.
pub proof fn lemma_restart_advances(flow: RestartFlow, state: BackendState, event: RestartEvent)
    ensures
        flow.action_for(&state, event) != RestartAction::Ignore ==> restart_stage_rank(
            flow.next_stage(&state, event),
        ) < restart_stage_rank(flow.spec_stage()),
        flow.action_for(&state, event) == RestartAction::Ignore ==> flow.next_stage(&state, event)
            == flow.spec_stage(),
        flow.action_for(&state, event) is Finish <==> (flow.next_stage(&state, event)
            == RestartStage::Finished && flow.spec_stage() != RestartStage::Finished),
        flow.action_for(&state, event) is Finish ==> (flow.action_for(&state, event)
            == RestartAction::Finish(true) <==> flow.failure_for(&state, event) is None),
{
}

/// Restarts are single-flight: a restart that begins while another is in
/// progress ends at once with the message for a busy supervisor.
pub proof fn lemma_restart_is_single_flight(flow: RestartFlow, state: BackendState)
    requires
        flow.spec_stage() == RestartStage::Idle,
        state.restarting(),
    ensures
        flow.action_for(&state, RestartEvent::Begin) == RestartAction::Finish(false),
        flow.failure_for(&state, RestartEvent::Begin) == Some(action_in_progress_message()),
        flow.next_stage(&state, RestartEvent::Begin) == RestartStage::Finished,
{
}

/// What each strategy allows: without being asked, only a backend under
/// `ManagedSkipGraceful` is stopped; a rejected request ends the restart of
/// an unmanaged backend with a failure and sends a managed one on to the
/// stop; and a request that the backend took is always verified by a wait.
pub proof fn lemma_strategy_governs_restart(
    flow: RestartFlow,
    state: BackendState,
    start_time: Option<i64>,
    status: Option<u16>,
)
    ensures
        flow.spec_stage() == RestartStage::FetchingStartTime ==> (flow.action_for(
            &state,
            RestartEvent::StartTimeFetched(start_time),
        ) == RestartAction::StopBackend <==> flow.spec_strategy()
            == RestartStrategy::ManagedSkipGraceful),
        flow.spec_stage() == RestartStage::RequestingGraceful && restart_request_accepted(status)
            ==> flow.action_for(&state, RestartEvent::GracefulResponse(status))
            == RestartAction::WaitForGracefulRestart,
        flow.spec_stage() == RestartStage::RequestingGraceful && !restart_request_accepted(status)
            ==> flow.action_for(&state, RestartEvent::GracefulResponse(status)) == (
        if flow.spec_strategy() == RestartStrategy::UnmanagedWithGracefulProbe {
            RestartAction::Finish(false)
        } else {
            RestartAction::StopBackend
        }),
{
}

/// The view of an optional response.
pub open spec fn opt_bytes_view(response: Option<&[u8]>) -> Option<Seq<u8>> {
    match response {
        Some(bytes) => Some(bytes@),
        None => None,
    }
}

/// The request that asks the backend for its start time.
pub fn start_time_request(backend_url: &str) -> (request: Option<BackendRequest>)
    ensures
        request.is_some() == request_url(backend_url@, "/api/stat/start-time"@).is_some(),
        request.is_some() ==> {
            let address = request_url(backend_url@, "/api/stat/start-time"@).unwrap();
            &&& Some(request.unwrap().target.host@) == url_host(address)
            &&& request.unwrap().target.port == port_or_80(address)
            &&& request.unwrap().target.timeout_ms == GRACEFUL_RESTART_START_TIME_TIMEOUT_MS
            &&& request.unwrap().text@ == request_text(
                "GET"@,
                request_target(address),
                url_host(address).unwrap(),
                authorization_header(None),
                encode_utf8(payload_of(None)).len(),
                payload_of(None),
            )
        },
{
    build_backend_request(
        backend_url,
        "GET",
        "/api/stat/start-time",
        GRACEFUL_RESTART_START_TIME_TIMEOUT_MS,
        None,
        None,
    )
}

/// The start time that the backend reports in its answer. `response` is
/// what came back, `None` where nothing did.
pub fn fetch_backend_start_time(response: Option<&[u8]>) -> (start_time: Option<i64>)
    ensures
        start_time == (match opt_bytes_view(response) {
            Some(raw) => match http_json_document(raw) {
                Some(document) => backend_start_time(document),
                None => None,
            },
            None => None,
        }),
{
    match response {
        Some(raw) => match parse_http_json_response(raw) {
            Some(document) => parse_backend_start_time(&document),
            None => None,
        },
        None => None,
    }
}

/// The status with which the backend answered. `response` is what came
/// back, `None` where nothing did.
pub fn request_backend_status_code(response: Option<&[u8]>) -> (status: Option<u16>)
    ensures
        status == (match opt_bytes_view(response) {
            Some(raw) => http_status_code(raw),
            None => None,
        }),
{
    match response {
        Some(raw) => parse_http_status_code(raw),
        None => None,
    }
}

/// The request that asks the backend to restart itself: a `POST` with an
/// empty JSON object, and with the token where one may go into a request.
pub fn graceful_restart_request(backend_url: &str, auth_token: Option<&str>) -> (request: Option<
    BackendRequest,
>)
    ensures
        request.is_some() == request_url(backend_url@, "/api/stat/restart-core"@).is_some(),
        request.is_some() ==> {
            let address = request_url(backend_url@, "/api/stat/restart-core"@).unwrap();
            &&& Some(request.unwrap().target.host@) == url_host(address)
            &&& request.unwrap().target.port == port_or_80(address)
            &&& request.unwrap().target.timeout_ms == GRACEFUL_RESTART_REQUEST_TIMEOUT_MS
            &&& request.unwrap().text@ == request_text(
                "POST"@,
                request_target(address),
                url_host(address).unwrap(),
                authorization_header(opt_str_view(auth_token)),
                encode_utf8("{}"@).len(),
                "{}"@,
            )
        },
{
    build_backend_request(
        backend_url,
        "POST",
        "/api/stat/restart-core",
        GRACEFUL_RESTART_REQUEST_TIMEOUT_MS,
        Some("{}"),
        auth_token,
    )
}

} // verus!

//! Waiting for the backend to become usable: what counts as ready, how one
//! round of the wait is judged, and what ends the wait.

use vstd::prelude::*;
use vstd::string::StringExecFns;
use crate::backend_http::{
    build_backend_request, connect_timeout, has_ping_target, ping_target, port_or_80,
    request_target, request_text, request_url, BackendRequest, ConnectTarget,
};
use crate::backend_runtime::{BackendReadinessConfig, BACKEND_READY_TCP_PROBE_TIMEOUT_MAX_MS};
use crate::backend_state::BackendState;
use crate::notes::{opt_view, push_optional, texts};
use crate::numbers::{decimal_string, decimal_text};
use crate::text::owned;
use crate::urls::{parsed_url, url_host};

verus! {

/// A backend is ready once it answers the probe with a status of 200..=399.
pub open spec fn is_ready_status(http_status: Option<u16>) -> bool {
    match http_status {
        Some(code) => 200 <= code < 400,
        None => false,
    }
}

/// Whether the status of a probe shows the backend ready.
pub fn probe_shows_ready(http_status: Option<u16>) -> (ready: bool)
    ensures
        ready == is_ready_status(http_status),
{
    match http_status {
        Some(code) => 200 <= code && code < 400,
        None => false,
    }
}

/// The timeout of the reachability check that goes with a probe: that of
/// the probe, and at most one second.
pub open spec fn tcp_probe_timeout(probe_timeout_ms: u64) -> u64 {
    if probe_timeout_ms > BACKEND_READY_TCP_PROBE_TIMEOUT_MAX_MS {
        BACKEND_READY_TCP_PROBE_TIMEOUT_MAX_MS
    } else {
        probe_timeout_ms
    }
}

/// What one probe of the backend sends, and where the reachability check
/// that goes with it connects to.
#[derive(Debug)]
pub struct ReadinessProbePlan {
    /// The request of the HTTP check, where one can be made.
    pub http: Option<BackendRequest>,
    /// The target of the reachability check, where there is one.
    pub tcp: Option<ConnectTarget>,
}

/// Plans one probe of the backend: a `GET` of the readiness path with the
/// timeout of the probe, and a reachability check with that timeout capped
/// at one second.
pub fn probe_backend_readiness(backend_url: &str, ready_http_path: &str, probe_timeout_ms: u64) -> (plan:
    ReadinessProbePlan)
    ensures
        plan.http.is_some() == request_url(backend_url@, ready_http_path@).is_some(),
        plan.http.is_some() ==> {
            let address = request_url(backend_url@, ready_http_path@).unwrap();
            &&& Some(plan.http.unwrap().target.host@) == url_host(address)
            &&& plan.http.unwrap().target.port == port_or_80(address)
            &&& plan.http.unwrap().target.timeout_ms == connect_timeout(probe_timeout_ms)
            &&& plan.http.unwrap().text@ == request_text(
                "GET"@,
                request_target(address),
                url_host(address).unwrap(),
                Seq::empty(),
                0,
                Seq::empty(),
            )
        },
        plan.tcp.is_some() == has_ping_target(backend_url@),
        plan.tcp.is_some() ==> {
            let address = parsed_url(backend_url@).unwrap();
            &&& Some(plan.tcp.unwrap().host@) == url_host(address)
            &&& plan.tcp.unwrap().port == port_or_80(address)
            &&& plan.tcp.unwrap().timeout_ms == connect_timeout(tcp_probe_timeout(probe_timeout_ms))
        },
{
    let http = build_backend_request(backend_url, "GET", ready_http_path, probe_timeout_ms, None, None);
    let tcp_timeout_ms = if probe_timeout_ms > BACKEND_READY_TCP_PROBE_TIMEOUT_MAX_MS {
        BACKEND_READY_TCP_PROBE_TIMEOUT_MAX_MS
    } else {
        probe_timeout_ms
    };
    let tcp = ping_target(backend_url, tcp_timeout_ms);
    proof {
        vstd::utf8::encode_utf8_decode_utf8(Seq::<char>::empty());
        assert(vstd::utf8::encode_utf8(Seq::<char>::empty()).len() == 0) by {
            reveal_with_fuel(vstd::utf8::encode_utf8, 1);
        }
    }
    ReadinessProbePlan { http, tcp }
}

/// What a look at the managed process showed during the wait.
#[derive(Debug)]
pub enum ChildStatus {
    /// No process is managed.
    NotRunning,
    /// The process is running.
    Running,
    /// The process has ended; the field holds its exit status.
    Exited(String),
    /// The look itself failed; the field holds the error.
    PollFailed(String),
}

/// What one round of the wait saw.
#[derive(Debug)]
pub struct ReadinessLook {
    /// The status with which the backend answered the probe.
    pub http_status: Option<u16>,
    /// Whether the backend could be connected to.
    pub tcp_reachable: bool,
    /// What a look at the managed process showed.
    pub child: ChildStatus,
    /// The time since the wait began, in milliseconds.
    pub elapsed_ms: u64,
}

/// What to do after a round of the wait.
#[derive(Debug, Clone, Copy, PartialEq, Eq, Structural)]
pub enum ReadinessStep {
    /// The backend is ready.
    Ready,
    /// The wait has failed.
    Failed,
    /// Sleep for so many milliseconds, then probe again.
    SleepThenProbe(u64),
}

/// The error of a wait whose process ended.
pub open spec fn exited_early_message(status: Seq<char>) -> Seq<char> {
    "Backend process exited before becoming reachable: "@ + status
}

/// The error of a wait that could not look at its process.
pub open spec fn poll_failed_message(error: Seq<char>) -> Seq<char> {
    "Failed to poll backend process status: "@ + error
}

/// The error of a wait that ran out of time.
pub open spec fn startup_timeout_message(limit_ms: u64) -> Seq<char> {
    "Timed out after "@ + decimal_text(limit_ms as nat) + "ms waiting for backend startup."@
}

/// How a yes or no is written in the log.
pub open spec fn bool_text(value: bool) -> Seq<char> {
    if value {
        "true"@
    } else {
        "false"@
    }
}

/// How the last status is written in the log.
pub open spec fn status_text(http_status: Option<u16>) -> Seq<char> {
    match http_status {
        Some(code) => decimal_text(code as nat),
        None => "none"@,
    }
}

/// The line logged for a wait that ran out of time.
pub open spec fn readiness_timeout_note(
    limit_ms: u64,
    backend_url: Seq<char>,
    ready_http_path: Seq<char>,
    probe_timeout_ms: u64,
    last_http_status: Option<u16>,
    tcp_reachable: bool,
) -> Seq<char> {
    "backend HTTP readiness check timed out after "@ + decimal_text(limit_ms as nat)
        + "ms: backend_url="@ + backend_url + ", path="@ + ready_http_path
        + ", probe_timeout_ms="@ + decimal_text(probe_timeout_ms as nat) + ", tcp_reachable="@
        + bool_text(tcp_reachable) + ", last_http_status="@ + status_text(last_http_status)
}

/// Renders the line for a wait that ran out of time.
pub fn log_backend_readiness_timeout(
    limit_ms: u64,
    backend_url: &str,
    ready_http_path: &str,
    probe_timeout_ms: u64,
    last_http_status: Option<u16>,
    tcp_reachable: bool,
) -> (line: String)
    ensures
        line@ == readiness_timeout_note(
            limit_ms,
            backend_url@,
            ready_http_path@,
            probe_timeout_ms,
            last_http_status,
            tcp_reachable,
        ),
{
    let last_http_status_text = match last_http_status {
        Some(code) => decimal_string(code as u64),
        None => owned("none"),
    };
    let mut line = owned("backend HTTP readiness check timed out after ");
    line.append(decimal_string(limit_ms).as_str());
    line.append("ms: backend_url=");
    line.append(backend_url);
    line.append(", path=");
    line.append(ready_http_path);
    line.append(", probe_timeout_ms=");
    line.append(decimal_string(probe_timeout_ms).as_str());
    line.append(", tcp_reachable=");
    line.append(if tcp_reachable {
        "true"
    } else {
        "false"
    });
    line.append(", last_http_status=");
    line.append(last_http_status_text.as_str());
    line
}

/// Whether a wait with the given limit is out of time at `elapsed_ms`;
/// `None` stands for no limit.
pub open spec fn limit_reached(limit_ms: Option<u64>, elapsed_ms: u64) -> bool {
    match limit_ms {
        Some(limit) => elapsed_ms >= limit,
        None => false,
    }
}

/// The step that follows a round: a ready status ends the wait with
/// success before anything else is looked at; then a process that is gone,
/// has ended or cannot be looked at ends it with a failure; then a used-up
/// time does; otherwise the caller sleeps and probes again.
pub open spec fn readiness_step(limit_ms: Option<u64>, poll_interval_ms: u64, look: ReadinessLook) -> ReadinessStep {
    if is_ready_status(look.http_status) {
        ReadinessStep::Ready
    } else if !(look.child is Running) || limit_reached(limit_ms, look.elapsed_ms) {
        ReadinessStep::Failed
    } else {
        ReadinessStep::SleepThenProbe(poll_interval_ms)
    }
}

/// The message with which the wait fails at a round, where it does.
pub open spec fn readiness_failure(limit_ms: Option<u64>, look: ReadinessLook) -> Option<Seq<char>> {
    if is_ready_status(look.http_status) {
        None
    } else {
        match look.child {
            ChildStatus::NotRunning => Some("Backend process is not running."@),
            ChildStatus::Exited(status) => Some(exited_early_message(status@)),
            ChildStatus::PollFailed(error) => Some(poll_failed_message(error@)),
            ChildStatus::Running => if limit_reached(limit_ms, look.elapsed_ms) {
                Some(startup_timeout_message(limit_ms.unwrap()))
            } else {
                None
            },
        }
    }
}

/// The lines to log after a round: once, that the backend can be connected
/// to but is not ready; and at the round at which the time is used up, the
/// line about the timeout. `logged` says whether the first line has been
/// logged, `seen` whether the backend has been connected to before.
pub open spec fn round_notes(
    limit_ms: Option<u64>,
    backend_url: Seq<char>,
    ready_http_path: Seq<char>,
    probe_timeout_ms: u64,
    logged: bool,
    seen: bool,
    look: ReadinessLook,
) -> Seq<Seq<char>> {
    if is_ready_status(look.http_status) {
        Seq::empty()
    } else {
        (if look.tcp_reachable && !logged {
            seq!["backend TCP port is reachable but HTTP dashboard is not ready yet; waiting"@]
        } else {
            Seq::empty()
        }) + (if look.child is Running && limit_reached(limit_ms, look.elapsed_ms) {
            seq![
                readiness_timeout_note(
                    limit_ms.unwrap(),
                    backend_url,
                    ready_http_path,
                    probe_timeout_ms,
                    look.http_status,
                    seen || look.tcp_reachable,
                ),
            ]
        } else {
            Seq::empty()
        })
    }
}

/// The wait for a backend that was just started.
#[derive(Debug)]
pub struct BackendWait {
    path: String,
    probe_timeout_ms: u64,
    poll_interval_ms: u64,
    limit_ms: Option<u64>,
    tcp_ready_logged: bool,
    ever_tcp_reachable: bool,
}

/// What one round of the wait gives: the step, the message where the wait
/// has failed, and the lines to log.
#[derive(Debug)]
pub struct ReadinessOutcome {
    pub step: ReadinessStep,
    pub failure: Option<String>,
    pub notes: Vec<String>,
}

impl BackendWait {
    /// The path that is probed.
    pub closed spec fn ready_path(&self) -> Seq<char> {
        self.path@
    }

    /// The timeout of one probe, in milliseconds.
    pub closed spec fn probe_timeout(&self) -> u64 {
        self.probe_timeout_ms
    }

    /// The pause between two probes, in milliseconds.
    pub closed spec fn poll_interval(&self) -> u64 {
        self.poll_interval_ms
    }

    /// How long the wait may take; `None` stands for no limit.
    pub closed spec fn limit(&self) -> Option<u64> {
        self.limit_ms
    }

    /// The backend has been connected to during the wait.
    pub closed spec fn seen_reachable(&self) -> bool {
        self.ever_tcp_reachable
    }

    /// The line about a reachable but unready backend has been logged.
    pub closed spec fn reachable_logged(&self) -> bool {
        self.tcp_ready_logged
    }

    /// Whether the time is used up at `elapsed_ms`.
    pub open spec fn out_of_time(&self, elapsed_ms: u64) -> bool {
        limit_reached(self.limit(), elapsed_ms)
    }

    /// The step that follows a round.
    pub open spec fn step_for(&self, look: ReadinessLook) -> ReadinessStep {
        readiness_step(self.limit(), self.poll_interval(), look)
    }

    /// The message with which the wait fails at a round, where it does.
    pub open spec fn failure_for(&self, look: ReadinessLook) -> Option<Seq<char>> {
        readiness_failure(self.limit(), look)
    }

    /// The lines to log after a round.
    pub open spec fn notes_for(&self, backend_url: Seq<char>, look: ReadinessLook) -> Seq<Seq<char>> {
        round_notes(
            self.limit(),
            backend_url,
            self.ready_path(),
            self.probe_timeout(),
            self.reachable_logged(),
            self.seen_reachable(),
            look,
        )
    }

    /// A wait that has seen nothing yet. `limit_ms` is how long it may
    /// take, `None` for no limit.
    pub fn new(readiness: &BackendReadinessConfig, limit_ms: Option<u64>) -> (wait: Self)
        ensures
            wait.ready_path() == readiness.path@,
            wait.probe_timeout() == readiness.probe_timeout_ms,
            wait.poll_interval() == readiness.poll_interval_ms,
            wait.limit() == limit_ms,
            !wait.seen_reachable(),
            !wait.reachable_logged(),
    {
        BackendWait {
            path: readiness.path.clone(),
            probe_timeout_ms: readiness.probe_timeout_ms,
            poll_interval_ms: readiness.poll_interval_ms,
            limit_ms,
            tcp_ready_logged: false,
            ever_tcp_reachable: false,
        }
    }

    /// Judges one round of the wait. A process that has ended is forgotten,
    /// so that a later start finds the slot free.
    pub fn observe(&mut self, state: &mut BackendState, look: &ReadinessLook) -> (outcome:
        ReadinessOutcome)
        ensures
            outcome.step == old(self).step_for(*look),
            opt_view(outcome.failure) == old(self).failure_for(*look),
            texts(outcome.notes@) == old(self).notes_for(old(state).address(), *look),
            final(self).ready_path() == old(self).ready_path(),
            final(self).probe_timeout() == old(self).probe_timeout(),
            final(self).poll_interval() == old(self).poll_interval(),
            final(self).limit() == old(self).limit(),
            final(self).seen_reachable() == (old(self).seen_reachable() || (!is_ready_status(
                look.http_status,
            ) && look.tcp_reachable)),
            final(self).reachable_logged() == (old(self).reachable_logged() || (!is_ready_status(
                look.http_status,
            ) && look.tcp_reachable)),
            final(state).same_but_child(old(state)),
            final(state).child() == (if !is_ready_status(look.http_status) && look.child
                is Exited {
                None
            } else {
                old(state).child()
            }),
            final(state).rotator() == (if !is_ready_status(look.http_status) && look.child
                is Exited {
                None
            } else {
                old(state).rotator()
            }),
    {
        let mut notes: Vec<String> = Vec::new();
        assert(texts(notes@) =~= Seq::<Seq<char>>::empty());
        if probe_shows_ready(look.http_status) {
            return ReadinessOutcome { step: ReadinessStep::Ready, failure: None, notes };
        }
        if look.tcp_reachable {
            self.ever_tcp_reachable = true;
            if !self.tcp_ready_logged {
                push_optional(
                    &mut notes,
                    Some(
                        owned(
                            "backend TCP port is reachable but HTTP dashboard is not ready yet; waiting",
                        ),
                    ),
                );
                self.tcp_ready_logged = true;
            }
        }
        match &look.child {
            ChildStatus::NotRunning => {
                assert(texts(notes@) =~= old(self).notes_for(old(state).address(), *look));
                return ReadinessOutcome {
                    step: ReadinessStep::Failed,
                    failure: Some(owned("Backend process is not running.")),
                    notes,
                };
            },
            ChildStatus::Exited(status) => {
                assert(texts(notes@) =~= old(self).notes_for(old(state).address(), *look));
                state.clear_child();
                let mut message = owned("Backend process exited before becoming reachable: ");
                message.append(status.as_str());
                return ReadinessOutcome {
                    step: ReadinessStep::Failed,
                    failure: Some(message),
                    notes,
                };
            },
            ChildStatus::PollFailed(error) => {
                assert(texts(notes@) =~= old(self).notes_for(old(state).address(), *look));
                let mut message = owned("Failed to poll backend process status: ");
                message.append(error.as_str());
                return ReadinessOutcome {
                    step: ReadinessStep::Failed,
                    failure: Some(message),
                    notes,
                };
            },
            ChildStatus::Running => {},
        }
        match self.limit_ms {
            Some(limit) => {
                if look.elapsed_ms >= limit {
                    let line = log_backend_readiness_timeout(
                        limit,
                        state.backend_url(),
                        self.path.as_str(),
                        self.probe_timeout_ms,
                        look.http_status,
                        self.ever_tcp_reachable,
                    );
                    push_optional(&mut notes, Some(line));
                    let mut message = owned("Timed out after ");
                    message.append(decimal_string(limit).as_str());
                    message.append("ms waiting for backend startup.");
                    return ReadinessOutcome {
                        step: ReadinessStep::Failed,
                        failure: Some(message),
                        notes,
                    };
                }
            },
            None => {},
        }
        assert(texts(notes@) =~= old(self).notes_for(old(state).address(), *look));
        ReadinessOutcome {
            step: ReadinessStep::SleepThenProbe(self.poll_interval_ms),
            failure: None,
            notes,
        }
    }
}

/// How a run of rounds ends: with success at the first round whose probe
/// shows the backend ready, with a failure at the first round that fails,
/// and undecided where the run ends before either.
pub open spec fn backend_wait_outcome(limit_ms: Option<u64>, looks: Seq<ReadinessLook>) -> Option<
    Result<(), Seq<char>>,
>
    decreases looks.len(),
{
    if looks.len() == 0 {
        None
    } else {
        match readiness_step(limit_ms, 0, looks[0]) {
            ReadinessStep::Ready => Some(Ok(())),
            ReadinessStep::Failed => Some(Err(readiness_failure(limit_ms, looks[0]).unwrap())),
            ReadinessStep::SleepThenProbe(_) => backend_wait_outcome(limit_ms, looks.drop_first()),
        }
    }
}

/// The lines that a run of rounds logs, up to the round that ends the wait.
pub open spec fn backend_wait_notes(
    limit_ms: Option<u64>,
    backend_url: Seq<char>,
    ready_http_path: Seq<char>,
    probe_timeout_ms: u64,
    logged: bool,
    seen: bool,
    looks: Seq<ReadinessLook>,
) -> Seq<Seq<char>>
    decreases looks.len(),
{
    if looks.len() == 0 {
        Seq::empty()
    } else {
        let here = round_notes(
            limit_ms,
            backend_url,
            ready_http_path,
            probe_timeout_ms,
            logged,
            seen,
            looks[0],
        );
        if readiness_step(limit_ms, 0, looks[0]) is SleepThenProbe {
            here + backend_wait_notes(
                limit_ms,
                backend_url,
                ready_http_path,
                probe_timeout_ms,
                logged || looks[0].tcp_reachable,
                seen || looks[0].tcp_reachable,
                looks.drop_first(),
            )
        } else {
            here
        }
    }
}

/// Whether a run of rounds ends the wait because the process has ended:
/// the round that fails the wait is one that found the process gone for
/// good.
pub open spec fn wait_ends_with_exit(limit_ms: Option<u64>, looks: Seq<ReadinessLook>) -> bool
    decreases looks.len(),
{
    looks.len() > 0 && (match readiness_step(limit_ms, 0, looks[0]) {
        ReadinessStep::Ready => false,
        ReadinessStep::Failed => looks[0].child is Exited,
        ReadinessStep::SleepThenProbe(_) => wait_ends_with_exit(limit_ms, looks.drop_first()),
    })
}

/// Runs the wait over a run of rounds. `None` where the run ends before the
/// wait does. A process that has ended is forgotten together with its log
/// rotation worker, so that a later start finds the slot free; in every
/// other case the slot stays as it was. The second result holds the lines
/// to log.
pub fn wait_for_backend(
    state: &mut BackendState,
    readiness: &BackendReadinessConfig,
    limit_ms: Option<u64>,
    looks: &[ReadinessLook],
) -> (outcome: (Option<Result<(), String>>, Vec<String>))
    ensures
        final(state).same_but_child(old(state)),
        final(state).child() == (if wait_ends_with_exit(limit_ms, looks@) {
            None
        } else {
            old(state).child()
        }),
        final(state).rotator() == (if wait_ends_with_exit(limit_ms, looks@) {
            None
        } else {
            old(state).rotator()
        }),
        crate::backend_restart::wait_result_view(outcome.0) == backend_wait_outcome(
            limit_ms,
            looks@,
        ),
        texts(outcome.1@) == backend_wait_notes(
            limit_ms,
            old(state).address(),
            readiness.path@,
            readiness.probe_timeout_ms,
            false,
            false,
            looks@,
        ),
{
    let mut wait = BackendWait::new(readiness, limit_ms);
    let mut notes: Vec<String> = Vec::new();
    let mut i: usize = 0;
    let ghost all_notes = backend_wait_notes(
        limit_ms,
        state.address(),
        readiness.path@,
        readiness.probe_timeout_ms,
        false,
        false,
        looks@,
    );
    proof {
        assert(looks@.skip(0) =~= looks@);
        assert(texts(notes@) + all_notes =~= all_notes);
    }
    while i < looks.len()
        invariant
            i <= looks.len(),
            state.same_but_child(old(state)),
            state.child() == old(state).child(),
            state.rotator() == old(state).rotator(),
            wait_ends_with_exit(limit_ms, looks@) == wait_ends_with_exit(
                limit_ms,
                looks@.skip(i as int),
            ),
            wait.limit() == limit_ms,
            wait.ready_path() == readiness.path@,
            wait.probe_timeout() == readiness.probe_timeout_ms,
            backend_wait_outcome(limit_ms, looks@) == backend_wait_outcome(
                limit_ms,
                looks@.skip(i as int),
            ),
            all_notes == backend_wait_notes(
                limit_ms,
                old(state).address(),
                readiness.path@,
                readiness.probe_timeout_ms,
                false,
                false,
                looks@,
            ),
            all_notes == texts(notes@) + backend_wait_notes(
                limit_ms,
                old(state).address(),
                readiness.path@,
                readiness.probe_timeout_ms,
                wait.reachable_logged(),
                wait.seen_reachable(),
                looks@.skip(i as int),
            ),
        decreases looks.len() - i,
    {
        proof {
            assert(looks@.skip(i as int)[0] == looks@[i as int]);
            assert(looks@.skip(i as int).drop_first() =~= looks@.skip(i + 1));
        }
        let ghost before = texts(notes@);
        let ghost rest = backend_wait_notes(
            limit_ms,
            old(state).address(),
            readiness.path@,
            readiness.probe_timeout_ms,
            wait.reachable_logged() || looks@[i as int].tcp_reachable,
            wait.seen_reachable() || looks@[i as int].tcp_reachable,
            looks@.skip(i + 1),
        );
        let outcome = wait.observe(state, &looks[i]);
        let mut round_notes = outcome.notes;
        let ghost here = texts(round_notes@);
        let ghost joined = notes@ + round_notes@;
        notes.append(&mut round_notes);
        proof {
            assert(notes@ =~= joined);
            assert(texts(notes@) =~= before + here);
            assert(before + (here + rest) =~= (before + here) + rest);
        }
        match outcome.step {
            ReadinessStep::Ready => {
                return (Some(Ok(())), notes);
            },
            ReadinessStep::Failed => {
                let message = match outcome.failure {
                    Some(message) => message,
                    None => String::new(),
                };
                return (Some(Err(message)), notes);
            },
            ReadinessStep::SleepThenProbe(_) => {},
        }
        i += 1;
    }
    proof {
        assert(looks@.skip(looks.len() as int) =~= Seq::<ReadinessLook>::empty());
        assert(texts(notes@) + Seq::<Seq<char>>::empty() =~= texts(notes@));
    }
    (None, notes)
}

/// The wait succeeds at the first round whose probe is answered with a
/// status of 200..=399, and not before: as long as the process runs and the
/// time is not used up, every earlier round sends the caller back to sleep
/// and probe again.
pub proof fn lemma_ready_at_first_ready_probe(limit_ms: Option<u64>, looks: Seq<ReadinessLook>, at: int)
    requires
        0 <= at < looks.len(),
        is_ready_status(looks[at].http_status),
        forall|i: int|
            0 <= i < at ==> !is_ready_status((#[trigger] looks[i]).http_status) && looks[i].child
                is Running && !limit_reached(limit_ms, looks[i].elapsed_ms),
    ensures
        backend_wait_outcome(limit_ms, looks) == Some(Ok::<(), Seq<char>>(())),
        forall|n: int| 0 <= n <= at ==> backend_wait_outcome(limit_ms, #[trigger] looks.take(n)) is None,
    decreases at,
{
    assert forall|n: int| 0 <= n <= at implies backend_wait_outcome(
        limit_ms,
        #[trigger] looks.take(n),
    ) is None by {
        lemma_unready_rounds_are_undecided(limit_ms, looks.take(n));
    }
    if at > 0 {
        let rest = looks.drop_first();
        assert(rest[at - 1] == looks[at]);
        assert forall|i: int| 0 <= i < at - 1 implies !is_ready_status(
            (#[trigger] rest[i]).http_status,
        ) && rest[i].child is Running && !limit_reached(limit_ms, rest[i].elapsed_ms) by {
            assert(rest[i] == looks[i + 1]);
        }
        lemma_ready_at_first_ready_probe(limit_ms, rest, at - 1);
    }
}

/// Rounds that find the backend unready, the process running and time left
/// decide nothing.
pub proof fn lemma_unready_rounds_are_undecided(limit_ms: Option<u64>, looks: Seq<ReadinessLook>)
    requires
        forall|i: int|
            0 <= i < looks.len() ==> !is_ready_status((#[trigger] looks[i]).http_status) && looks[i].child
                is Running && !limit_reached(limit_ms, looks[i].elapsed_ms),
    ensures
        backend_wait_outcome(limit_ms, looks) is None,
    decreases looks.len(),
{
    if looks.len() > 0 {
        let rest = looks.drop_first();
        assert forall|i: int| 0 <= i < rest.len() implies !is_ready_status(
            (#[trigger] rest[i]).http_status,
        ) && rest[i].child is Running && !limit_reached(limit_ms, rest[i].elapsed_ms) by {
            assert(rest[i] == looks[i + 1]);
        }
        lemma_unready_rounds_are_undecided(limit_ms, rest);
    }
}

/// A wait with a limit never sends the caller back to sleep at a round at
/// which the limit is reached, and a process that is gone ends the wait at
/// once unless the backend is ready.
pub proof fn lemma_backend_wait_is_bounded(wait: &BackendWait, look: ReadinessLook)
    ensures
        wait.out_of_time(look.elapsed_ms) ==> !(wait.step_for(look) is SleepThenProbe),
        !(look.child is Running) && !is_ready_status(look.http_status) ==> wait.step_for(look)
            == ReadinessStep::Failed,
        wait.step_for(look) == ReadinessStep::Failed <==> wait.failure_for(look) is Some,
        is_ready_status(look.http_status) <==> wait.step_for(look) == ReadinessStep::Ready,
{
}

} // verus!

//! The settings of one running supervisor: the names of the variables it
//! reads, their defaults and bounds, and the values resolved from them.

use vstd::prelude::*;
use crate::backend_config::{
    backend_timeout_ms, optional_clamped_timeout, optional_clamped_timeout_note,
    parse_optional_timeout_env, ready_http_path, ready_http_path_note,
    resolve_backend_readiness_config, resolve_backend_timeout_ms, EnvValue, TimeoutSetting,
};
use crate::notes::{note_list, opt_as_str, opt_str_view, opt_view, texts};

verus! {

/// Where the backend listens unless the environment says otherwise.
pub const DEFAULT_BACKEND_URL: &'static str = "http://127.0.0.1:6185/";

/// The variable that limits the wait for the backend, in milliseconds.
pub const BACKEND_TIMEOUT_ENV: &'static str = "ASTRBOT_BACKEND_TIMEOUT_MS";

/// The limit of the wait for a backend run from source.
pub const DEV_BACKEND_TIMEOUT_MS: u64 = 20_000;

/// The limit of the wait for a packaged backend.
pub const PACKAGED_BACKEND_TIMEOUT_FALLBACK_MS: u64 = 300_000;

/// The timeout of the request that asks the backend to restart.
pub const GRACEFUL_RESTART_REQUEST_TIMEOUT_MS: u64 = 2_500;

/// The timeout of the request that asks the backend for its start time.
pub const GRACEFUL_RESTART_START_TIME_TIMEOUT_MS: u64 = 1_800;

/// The pause between two looks at a backend that restarts itself.
pub const GRACEFUL_RESTART_POLL_INTERVAL_MS: u64 = 350;

/// The timeout of the reachability check during such a restart.
pub const GRACEFUL_RESTART_PING_TIMEOUT_MS: u64 = 700;

/// How long the managed process is given to end.
pub const GRACEFUL_STOP_TIMEOUT_MS: u64 = 10_000;

/// The pause between two readiness probes unless configured.
pub const DEFAULT_BACKEND_READY_POLL_INTERVAL_MS: u64 = 300;

/// The shortest pause between two readiness probes.
pub const BACKEND_READY_POLL_INTERVAL_MIN_MS: u64 = 50;

/// The longest pause between two readiness probes.
pub const BACKEND_READY_POLL_INTERVAL_MAX_MS: u64 = 10_000;

/// The variable that sets the pause between two readiness probes.
pub const BACKEND_READY_POLL_INTERVAL_ENV: &'static str = "ASTRBOT_BACKEND_READY_POLL_INTERVAL_MS";

/// The path that the readiness probe asks for unless configured.
pub const DEFAULT_BACKEND_READY_HTTP_PATH: &'static str = "/api/stat/start-time";

/// The variable that sets the path of the readiness probe.
pub const BACKEND_READY_HTTP_PATH_ENV: &'static str = "ASTRBOT_BACKEND_READY_HTTP_PATH";

/// The variable that sets the timeout of one readiness probe.
pub const BACKEND_READY_PROBE_TIMEOUT_ENV: &'static str = "ASTRBOT_BACKEND_READY_PROBE_TIMEOUT_MS";

/// The shortest timeout of one readiness probe.
pub const BACKEND_READY_PROBE_TIMEOUT_MIN_MS: u64 = 100;

/// The longest timeout of one readiness probe.
pub const BACKEND_READY_PROBE_TIMEOUT_MAX_MS: u64 = 30_000;

/// The longest timeout of the reachability check that goes with a probe.
pub const BACKEND_READY_TCP_PROBE_TIMEOUT_MAX_MS: u64 = 1_000;

/// The timeout of a reachability check unless configured.
pub const DEFAULT_BACKEND_PING_TIMEOUT_MS: u64 = 800;

/// The shortest timeout of a reachability check.
pub const BACKEND_PING_TIMEOUT_MIN_MS: u64 = 50;

/// The longest timeout of a reachability check.
pub const BACKEND_PING_TIMEOUT_MAX_MS: u64 = 30_000;

/// The variable that sets the timeout of a reachability check.
pub const BACKEND_PING_TIMEOUT_ENV: &'static str = "ASTRBOT_BACKEND_PING_TIMEOUT_MS";

/// The variable that sets that timeout for checks made for the bridge.
pub const BRIDGE_BACKEND_PING_TIMEOUT_ENV: &'static str = "ASTRBOT_BRIDGE_BACKEND_PING_TIMEOUT_MS";

/// What the readiness wait is run with.
#[derive(Debug, Clone)]
pub struct BackendReadinessConfig {
    /// The path that the HTTP probe asks for.
    pub path: String,
    /// The timeout of one probe, in milliseconds.
    pub probe_timeout_ms: u64,
    /// The pause between two probes, in milliseconds.
    pub poll_interval_ms: u64,
}

/// The values of the variables that the readiness settings are read from.
#[derive(Debug, Clone)]
pub struct ReadinessEnvironment {
    pub ready_http_path: EnvValue,
    pub probe_timeout: Option<String>,
    pub poll_interval: Option<String>,
    pub ping_timeout: Option<String>,
}

/// How long a wait for the backend may take, in milliseconds: what
/// `backend_timeout_ms` gives for a development default of twenty seconds
/// and a packaged fallback of five minutes, and twenty seconds where that is
/// no limit.
pub open spec fn wait_timeout_ms(packaged_mode: bool, raw: Option<Seq<char>>) -> u64 {
    match backend_timeout_ms(
        packaged_mode,
        raw,
        DEV_BACKEND_TIMEOUT_MS,
        PACKAGED_BACKEND_TIMEOUT_FALLBACK_MS,
    ) {
        Some(timeout_ms) => timeout_ms,
        None => DEV_BACKEND_TIMEOUT_MS,
    }
}

/// How long a wait for the backend may take, in milliseconds, given the
/// text of the timeout variable (`None` where it is unset).
pub fn backend_wait_timeout(packaged_mode: bool, raw: Option<&str>) -> (timeout_ms: u64)
    ensures
        timeout_ms == wait_timeout_ms(packaged_mode, opt_str_view(raw)),
{
    match resolve_backend_timeout_ms(
        packaged_mode,
        raw,
        DEV_BACKEND_TIMEOUT_MS,
        PACKAGED_BACKEND_TIMEOUT_FALLBACK_MS,
    ) {
        Some(timeout_ms) => timeout_ms,
        None => DEV_BACKEND_TIMEOUT_MS,
    }
}

/// The timeout of a reachability check that the ping variable configures.
pub open spec fn ping_timeout_ms(raw: Option<Seq<char>>) -> u64 {
    optional_clamped_timeout(
        raw,
        DEFAULT_BACKEND_PING_TIMEOUT_MS,
        BACKEND_PING_TIMEOUT_MIN_MS,
        BACKEND_PING_TIMEOUT_MAX_MS,
    )
}

/// The line that goes with `ping_timeout_ms`, where there is one.
pub open spec fn ping_timeout_note(raw: Option<Seq<char>>) -> Option<Seq<char>> {
    optional_clamped_timeout_note(
        raw,
        BACKEND_PING_TIMEOUT_ENV@,
        DEFAULT_BACKEND_PING_TIMEOUT_MS,
        BACKEND_PING_TIMEOUT_MIN_MS,
        BACKEND_PING_TIMEOUT_MAX_MS,
    )
}

/// The timeout of a reachability check, from the text of the ping variable.
pub fn backend_ping_timeout_ms(raw: Option<&str>) -> (outcome: (u64, Option<String>))
    ensures
        outcome.0 == ping_timeout_ms(opt_str_view(raw)),
        opt_view(outcome.1) == ping_timeout_note(opt_str_view(raw)),
{
    parse_optional_timeout_env(
        raw,
        BACKEND_PING_TIMEOUT_ENV,
        DEFAULT_BACKEND_PING_TIMEOUT_MS,
        BACKEND_PING_TIMEOUT_MIN_MS,
        BACKEND_PING_TIMEOUT_MAX_MS,
    )
}

/// The timeout of a reachability check made for the bridge, from the text
/// of its own variable; `fallback_ms` is the general ping timeout.
pub fn bridge_backend_ping_timeout_ms(raw: Option<&str>, fallback_ms: u64) -> (outcome: (
    u64,
    Option<String>,
))
    ensures
        outcome.0 == optional_clamped_timeout(
            opt_str_view(raw),
            fallback_ms,
            BACKEND_PING_TIMEOUT_MIN_MS,
            BACKEND_PING_TIMEOUT_MAX_MS,
        ),
        opt_view(outcome.1) == optional_clamped_timeout_note(
            opt_str_view(raw),
            BRIDGE_BACKEND_PING_TIMEOUT_ENV@,
            fallback_ms,
            BACKEND_PING_TIMEOUT_MIN_MS,
            BACKEND_PING_TIMEOUT_MAX_MS,
        ),
{
    parse_optional_timeout_env(
        raw,
        BRIDGE_BACKEND_PING_TIMEOUT_ENV,
        fallback_ms,
        BACKEND_PING_TIMEOUT_MIN_MS,
        BACKEND_PING_TIMEOUT_MAX_MS,
    )
}

/// The timeout of one readiness probe: its own variable, clamped to
/// 100 ms..=30 s, with the ping timeout as the fallback.
pub open spec fn probe_timeout_ms(env: ReadinessEnvironment) -> u64 {
    optional_clamped_timeout(
        opt_view(env.probe_timeout),
        ping_timeout_ms(opt_view(env.ping_timeout)),
        BACKEND_READY_PROBE_TIMEOUT_MIN_MS,
        BACKEND_READY_PROBE_TIMEOUT_MAX_MS,
    )
}

/// The pause between two readiness probes: its own variable, clamped to
/// 50 ms..=10 s, with 300 ms as the fallback.
pub open spec fn poll_interval_ms(env: ReadinessEnvironment) -> u64 {
    optional_clamped_timeout(
        opt_view(env.poll_interval),
        DEFAULT_BACKEND_READY_POLL_INTERVAL_MS,
        BACKEND_READY_POLL_INTERVAL_MIN_MS,
        BACKEND_READY_POLL_INTERVAL_MAX_MS,
    )
}

/// The lines that resolving the readiness settings logs, in order.
pub open spec fn readiness_notes(env: ReadinessEnvironment) -> Seq<Seq<char>> {
    note_list(ping_timeout_note(opt_view(env.ping_timeout))) + (note_list(
        ready_http_path_note(
            env.ready_http_path,
            BACKEND_READY_HTTP_PATH_ENV@,
            DEFAULT_BACKEND_READY_HTTP_PATH@,
        ),
    ) + note_list(
        optional_clamped_timeout_note(
            opt_view(env.probe_timeout),
            BACKEND_READY_PROBE_TIMEOUT_ENV@,
            ping_timeout_ms(opt_view(env.ping_timeout)),
            BACKEND_READY_PROBE_TIMEOUT_MIN_MS,
            BACKEND_READY_PROBE_TIMEOUT_MAX_MS,
        ),
    ) + note_list(
        optional_clamped_timeout_note(
            opt_view(env.poll_interval),
            BACKEND_READY_POLL_INTERVAL_ENV@,
            DEFAULT_BACKEND_READY_POLL_INTERVAL_MS,
            BACKEND_READY_POLL_INTERVAL_MIN_MS,
            BACKEND_READY_POLL_INTERVAL_MAX_MS,
        ),
    ))
}

/// Resolves the readiness settings from the values of their variables. The
/// second result holds the lines to log, in order.
pub fn backend_readiness_config(env: &ReadinessEnvironment) -> (outcome: (
    BackendReadinessConfig,
    Vec<String>,
))
    ensures
        outcome.0.path@ == ready_http_path(env.ready_http_path, DEFAULT_BACKEND_READY_HTTP_PATH@),
        outcome.0.probe_timeout_ms == probe_timeout_ms(*env),
        outcome.0.poll_interval_ms == poll_interval_ms(*env),
        texts(outcome.1@) == readiness_notes(*env),
{
    let (probe_timeout_fallback, ping_note) = backend_ping_timeout_ms(opt_as_str(&env.ping_timeout));
    let ((path, probe_timeout_ms, poll_interval_ms), resolved_notes) =
        resolve_backend_readiness_config(
        &env.ready_http_path,
        BACKEND_READY_HTTP_PATH_ENV,
        DEFAULT_BACKEND_READY_HTTP_PATH,
        TimeoutSetting {
            raw: opt_as_str(&env.probe_timeout),
            env_name: BACKEND_READY_PROBE_TIMEOUT_ENV,
            fallback_ms: probe_timeout_fallback,
            min_ms: BACKEND_READY_PROBE_TIMEOUT_MIN_MS,
            max_ms: BACKEND_READY_PROBE_TIMEOUT_MAX_MS,
        },
        TimeoutSetting {
            raw: opt_as_str(&env.poll_interval),
            env_name: BACKEND_READY_POLL_INTERVAL_ENV,
            fallback_ms: DEFAULT_BACKEND_READY_POLL_INTERVAL_MS,
            min_ms: BACKEND_READY_POLL_INTERVAL_MIN_MS,
            max_ms: BACKEND_READY_POLL_INTERVAL_MAX_MS,
        },
    );
    let mut notes: Vec<String> = Vec::new();
    match ping_note {
        Some(note) => {
            notes.push(note);
        },
        None => {},
    }
    let ghost head = notes@;
    let ghost tail = resolved_notes@;
    let mut resolved_notes = resolved_notes;
    notes.append(&mut resolved_notes);
    proof {
        assert(texts(head) =~= note_list(ping_timeout_note(opt_view(env.ping_timeout))));
        assert(notes@ =~= head + tail);
        assert(texts(notes@) =~= texts(head) + texts(tail));
    }
    (BackendReadinessConfig { path, probe_timeout_ms, poll_interval_ms }, notes)
}

/// The resolved settings stay within their ranges: the pause between probes
/// lies in 50 ms..=10 s and is 300 ms where its variable is unset; the ping
/// timeout lies in 50 ms..=30 s; the probe timeout is at most 30 s and at
/// least the smallest ping timeout, and lies in 100 ms..=30 s whenever its
/// own variable holds a number.
pub proof fn lemma_readiness_settings_in_range(env: ReadinessEnvironment)
    ensures
        env.poll_interval is None ==> poll_interval_ms(env)
            == DEFAULT_BACKEND_READY_POLL_INTERVAL_MS,
        BACKEND_READY_POLL_INTERVAL_MIN_MS <= poll_interval_ms(env)
            <= BACKEND_READY_POLL_INTERVAL_MAX_MS,
        BACKEND_PING_TIMEOUT_MIN_MS <= ping_timeout_ms(opt_view(env.ping_timeout))
            <= BACKEND_PING_TIMEOUT_MAX_MS,
        BACKEND_PING_TIMEOUT_MIN_MS <= probe_timeout_ms(env) <= BACKEND_READY_PROBE_TIMEOUT_MAX_MS,
        env.probe_timeout is Some && crate::backend_config::timeout_number(
            env.probe_timeout.unwrap()@,
        ) is Some ==> probe_timeout_ms(env) >= BACKEND_READY_PROBE_TIMEOUT_MIN_MS,
{
}

} // verus!

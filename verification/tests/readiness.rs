use backend_supervisor::backend_readiness::{
    log_backend_readiness_timeout, probe_backend_readiness, probe_shows_ready, wait_for_backend,
    BackendWait, ChildStatus, ReadinessLook, ReadinessStep,
};
use backend_supervisor::backend_runtime::BackendReadinessConfig;
use backend_supervisor::backend_startup::{ensure_backend_ready, StartupAction};
use backend_supervisor::backend_state::BackendState;
use backend_supervisor::http_response::parse_http_status_code;

fn config() -> BackendReadinessConfig {
    BackendReadinessConfig {
        path: "/api/stat/start-time".to_string(),
        probe_timeout_ms: 800,
        poll_interval_ms: 300,
    }
}

fn look(http_status: Option<u16>, tcp_reachable: bool, child: ChildStatus, elapsed_ms: u64) -> ReadinessLook {
    ReadinessLook { http_status, tcp_reachable, child, elapsed_ms }
}

fn managed_state() -> BackendState {
    let mut state = BackendState::new("http://127.0.0.1:6185/");
    assert!(state.record_spawned_child(7, true));
    state
}

#[test]
fn ready_band_is_200_to_399() {
    assert!(!probe_shows_ready(None));
    assert!(!probe_shows_ready(Some(199)));
    assert!(probe_shows_ready(Some(200)));
    assert!(probe_shows_ready(Some(302)));
    assert!(probe_shows_ready(Some(399)));
    assert!(!probe_shows_ready(Some(400)));
    assert!(!probe_shows_ready(Some(401)));
    assert!(!probe_shows_ready(Some(500)));
}

#[test]
fn wait_for_backend_succeeds_on_fourth_probe_and_not_before() {
    // The backend answers with 200 after three poll intervals.
    let answer = b"HTTP/1.1 200 OK\r\nContent-Type: application/json\r\n\r\n{\"status\":\"ok\",\"data\":{\"start_time\":1234}}";
    let looks = vec![
        look(None, false, ChildStatus::Running, 0),
        look(None, false, ChildStatus::Running, 300),
        look(None, true, ChildStatus::Running, 600),
        look(parse_http_status_code(answer), true, ChildStatus::Running, 900),
    ];
    for probes in 0..4 {
        let mut state = managed_state();
        let (outcome, _) = wait_for_backend(&mut state, &config(), Some(20_000), &looks[..probes]);
        assert_eq!(outcome, None);
    }
    let mut state = managed_state();
    let (outcome, notes) = wait_for_backend(&mut state, &config(), Some(20_000), &looks);
    assert_eq!(outcome, Some(Ok(())));
    assert_eq!(
        notes,
        vec!["backend TCP port is reachable but HTTP dashboard is not ready yet; waiting".to_string()]
    );
    assert_eq!(state.managed_child_pid(), Some(7));
}

#[test]
fn probe_plan_targets_backend_url_and_caps_tcp_timeout() {
    let plan = probe_backend_readiness("http://127.0.0.1:6185/", "/api/stat/start-time", 5_000);
    let http = plan.http.expect("http request");
    assert_eq!((http.target.host.as_str(), http.target.port), ("127.0.0.1", 6185));
    assert_eq!(http.target.timeout_ms, 5_000);
    assert!(http.text.starts_with("GET /api/stat/start-time HTTP/1.1\r\nHost: 127.0.0.1\r\n"));
    let tcp = plan.tcp.expect("tcp target");
    assert_eq!((tcp.host.as_str(), tcp.port, tcp.timeout_ms), ("127.0.0.1", 6185, 1_000));

    let plan = probe_backend_readiness("http://127.0.0.1:6185/", "/x", 10);
    assert_eq!(plan.http.expect("http").target.timeout_ms, 50);
    assert_eq!(plan.tcp.expect("tcp").timeout_ms, 50);
    let plan = probe_backend_readiness("http://127.0.0.1:6185/", "/x", 400);
    assert_eq!(plan.tcp.expect("tcp").timeout_ms, 400);

    let plan = probe_backend_readiness("https://example.com/", "/x", 400);
    assert!(plan.http.is_none());
    assert_eq!(plan.tcp.expect("tcp").port, 443);
    let plan = probe_backend_readiness("nonsense", "/x", 400);
    assert!(plan.http.is_none() && plan.tcp.is_none());
}

#[test]
fn wait_fails_when_child_is_gone_or_time_is_up() {
    let mut state = BackendState::new("http://127.0.0.1:6185/");
    let (outcome, _) = wait_for_backend(
        &mut state,
        &config(),
        Some(20_000),
        &[look(Some(500), true, ChildStatus::NotRunning, 0)],
    );
    assert_eq!(outcome, Some(Err("Backend process is not running.".to_string())));

    let mut state = managed_state();
    let (outcome, _) = wait_for_backend(
        &mut state,
        &config(),
        None,
        &[look(None, false, ChildStatus::Exited("exit status: 1".to_string()), 10)],
    );
    assert_eq!(
        outcome,
        Some(Err("Backend process exited before becoming reachable: exit status: 1".to_string()))
    );
    assert_eq!(state.managed_child_pid(), None);
    assert_eq!(state.log_rotator_pid(), None);

    let mut state = managed_state();
    let (outcome, _) = wait_for_backend(
        &mut state,
        &config(),
        None,
        &[look(None, false, ChildStatus::PollFailed("denied".to_string()), 10)],
    );
    assert_eq!(outcome, Some(Err("Failed to poll backend process status: denied".to_string())));
    assert_eq!(state.managed_child_pid(), Some(7));

    let mut state = managed_state();
    let looks = [
        look(Some(503), true, ChildStatus::Running, 0),
        look(Some(404), false, ChildStatus::Running, 1_000),
    ];
    let (outcome, notes) = wait_for_backend(&mut state, &config(), Some(1_000), &looks);
    assert_eq!(
        outcome,
        Some(Err("Timed out after 1000ms waiting for backend startup.".to_string()))
    );
    assert_eq!(
        notes,
        vec![
            "backend TCP port is reachable but HTTP dashboard is not ready yet; waiting".to_string(),
            "backend HTTP readiness check timed out after 1000ms: backend_url=http://127.0.0.1:6185/, path=/api/stat/start-time, probe_timeout_ms=800, tcp_reachable=true, last_http_status=404".to_string(),
        ]
    );

    // Without a limit the wait goes on; a ready probe wins over everything else.
    let mut state = managed_state();
    let (outcome, _) = wait_for_backend(&mut state, &config(), None, &looks);
    assert_eq!(outcome, None);
    let (outcome, _) = wait_for_backend(
        &mut state,
        &config(),
        Some(0),
        &[look(Some(204), false, ChildStatus::NotRunning, 99)],
    );
    assert_eq!(outcome, Some(Ok(())));
}

#[test]
fn single_rounds_are_judged_by_observe() {
    let mut state = managed_state();
    let mut wait = BackendWait::new(&config(), Some(500));
    let outcome = wait.observe(&mut state, &look(None, true, ChildStatus::Running, 0));
    assert_eq!(outcome.step, ReadinessStep::SleepThenProbe(300));
    assert_eq!(outcome.notes.len(), 1);
    let outcome = wait.observe(&mut state, &look(None, true, ChildStatus::Running, 300));
    assert_eq!(outcome.step, ReadinessStep::SleepThenProbe(300));
    assert!(outcome.notes.is_empty());
    let outcome = wait.observe(&mut state, &look(Some(301), true, ChildStatus::Running, 600));
    assert_eq!((outcome.step, outcome.failure), (ReadinessStep::Ready, None));
    let outcome = wait.observe(&mut state, &look(None, false, ChildStatus::Running, 600));
    assert_eq!(outcome.step, ReadinessStep::Failed);
    assert_eq!(
        log_backend_readiness_timeout(20_000, "http://h/", "/p", 100, None, false),
        "backend HTTP readiness check timed out after 20000ms: backend_url=http://h/, path=/p, probe_timeout_ms=100, tcp_reachable=false, last_http_status=none"
    );
}

#[test]
fn startup_launches_only_when_needed_and_free() {
    let mut state = BackendState::new("http://127.0.0.1:6185/");
    let outcome = ensure_backend_ready(&mut state, true, Some("0"));
    assert_eq!(outcome.action, StartupAction::AlreadyReachable);
    assert_eq!(outcome.notes, vec!["backend already reachable, skip spawn".to_string()]);
    assert!(!state.is_backend_spawning());

    let outcome = ensure_backend_ready(&mut state, false, Some("0"));
    assert_eq!(outcome.action, StartupAction::Fail);
    assert_eq!(
        outcome.failure,
        Some("Backend auto-start is disabled (ASTRBOT_BACKEND_AUTO_START=0).".to_string())
    );
    assert_eq!(
        outcome.notes,
        vec!["backend auto-start disabled by ASTRBOT_BACKEND_AUTO_START=0".to_string()]
    );

    let outcome = ensure_backend_ready(&mut state, false, Some(" 0"));
    assert_eq!(outcome.action, StartupAction::Launch);
    assert!(state.is_backend_spawning());
    let outcome = ensure_backend_ready(&mut state, false, None);
    assert_eq!(outcome.action, StartupAction::Fail);
    assert_eq!(outcome.failure, Some("Backend action already in progress.".to_string()));
    state.end_spawn();
    assert_eq!(ensure_backend_ready(&mut state, false, None).action, StartupAction::Launch);
}

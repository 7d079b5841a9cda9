use backend_supervisor::backend_http::{
    build_backend_request, normalize_backend_url, ping_target,
};
use backend_supervisor::backend_process_lifecycle::{
    begin_stop_backend, stop_backend, stop_backend_for_bridge, BridgeStop,
};
use backend_supervisor::backend_state::{
    child_matches_pid_and_alive, BackendBridgeState, BackendState,
};
use backend_supervisor::exit_state::ExitLifecycleState;
use backend_supervisor::desktop_bridge::{
    desktop_bridge_bootstrap_script, should_inject_desktop_bridge,
};
use backend_supervisor::origin_policy::{is_localhost, tray_origin_decision, LoopbackHosts};
use backend_supervisor::process_control::{ChildPoll, StopPlatform, StopStage};
use backend_supervisor::startup_loading::should_apply_startup_loading_mode;
use url::Url;

// Whether a host is on this machine is an input of the decision. Each test
// states it for its two hosts: `127.0.0.1` and `localhost` are, and
// `example.com` is not.
const BOTH_LOCAL: LoopbackHosts = LoopbackHosts { backend: true, window: true };
const WINDOW_LOCAL: LoopbackHosts = LoopbackHosts { backend: false, window: true };

#[test]
fn tray_origin_decision_accepts_same_origin() {
    let backend = Url::parse("http://127.0.0.1:6185/api").expect("parse backend url");
    let page = Url::parse("http://127.0.0.1:6185/dashboard").expect("parse page url");
    let decision = tray_origin_decision(&backend, &page, BOTH_LOCAL);
    assert!(decision.uses_backend_origin);
}

#[test]
fn tray_origin_decision_rejects_non_http_scheme() {
    let backend = Url::parse("ws://127.0.0.1:6185").expect("parse backend url");
    let page = Url::parse("http://127.0.0.1:6185").expect("parse page url");
    let decision = tray_origin_decision(&backend, &page, BOTH_LOCAL);
    assert!(!decision.uses_backend_origin);
}

#[test]
fn tray_origin_decision_accepts_loopback_with_same_port() {
    let backend = Url::parse("http://127.0.0.1:6185").expect("parse backend url");
    let page = Url::parse("http://localhost:6185/index").expect("parse page url");
    let decision = tray_origin_decision(&backend, &page, BOTH_LOCAL);
    assert!(decision.uses_backend_origin);
}

#[test]
fn tray_origin_decision_rejects_different_ports() {
    let backend = Url::parse("http://127.0.0.1:6185").expect("parse backend url");
    let page = Url::parse("http://localhost:3000").expect("parse page url");
    let decision = tray_origin_decision(&backend, &page, BOTH_LOCAL);
    assert!(!decision.uses_backend_origin);
}

#[test]
fn origin_policy_needs_both_hosts_local_unless_origin_matches() {
    let backend = Url::parse("http://example.com:6185").expect("url");
    let page = Url::parse("http://localhost:6185").expect("url");
    assert!(!tray_origin_decision(&backend, &page, WINDOW_LOCAL).uses_backend_origin);
    let same = Url::parse("ws://example.com:1/a").expect("url");
    let other = Url::parse("ws://example.com:1/b").expect("url");
    let none = LoopbackHosts { backend: false, window: false };
    assert!(tray_origin_decision(&same, &other, none).uses_backend_origin);
    let https = Url::parse("https://localhost").expect("url");
    let http = Url::parse("http://127.0.0.1:443").expect("url");
    assert!(tray_origin_decision(&https, &http, BOTH_LOCAL).uses_backend_origin);
    assert!(!tray_origin_decision(&https, &http, WINDOW_LOCAL).uses_backend_origin);
    assert!(should_inject_desktop_bridge("http://127.0.0.1:6185/", &page, BOTH_LOCAL));
    assert!(!should_inject_desktop_bridge("http://127.0.0.1:6185/", &page, WINDOW_LOCAL));
    assert!(!should_inject_desktop_bridge("not a url", &page, BOTH_LOCAL));
    assert!(is_localhost(Some("localhost")));
    assert!(!is_localhost(Some("LOCALHOST.")));
    assert!(!is_localhost(None));
}

#[test]
fn should_apply_startup_loading_mode_requires_main_window_and_local_index() {
    let file_index = Url::parse("file:///index.html").expect("parse file url");
    assert!(should_apply_startup_loading_mode("main", &file_index));

    let http_index = Url::parse("http://127.0.0.1:6185/").expect("parse http url");
    assert!(!should_apply_startup_loading_mode("main", &http_index));
    assert!(!should_apply_startup_loading_mode("other", &file_index));
}

#[test]
fn startup_loading_mode_applies_to_root_and_index_only() {
    let root = Url::parse("tauri://localhost/").expect("url");
    assert!(should_apply_startup_loading_mode("main", &root));
    let other = Url::parse("tauri://localhost/other.html").expect("url");
    assert!(!should_apply_startup_loading_mode("main", &other));
    let https = Url::parse("https://localhost/index.html").expect("url");
    assert!(!should_apply_startup_loading_mode("main", &https));
}

#[test]
fn backend_url_is_normalized_once() {
    assert_eq!(normalize_backend_url("  http://127.0.0.1:6185  "), "http://127.0.0.1:6185/");
    assert_eq!(normalize_backend_url("http://example.com/base?x=1"), "http://example.com/base?x=1");
    assert_eq!(normalize_backend_url("HTTP://EXAMPLE.com"), "http://example.com/");
    assert_eq!(normalize_backend_url(""), "http://127.0.0.1:6185/");
    assert_eq!(normalize_backend_url("   "), "http://127.0.0.1:6185/");
    assert_eq!(normalize_backend_url("not a url"), "http://127.0.0.1:6185/");
    // A URL that cannot be a base gets its slash escaped by the parser.
    assert_eq!(normalize_backend_url("custom:"), "custom:%2F");
    assert_eq!(normalize_backend_url("custom://host"), "custom://host/");
    assert_eq!(BackendState::new(" http://h:1 ").backend_url(), "http://h:1/");
}

#[test]
fn ping_target_uses_host_port_and_floor() {
    let target = ping_target("http://127.0.0.1:6185/", 800).expect("target");
    assert_eq!((target.host.as_str(), target.port, target.timeout_ms), ("127.0.0.1", 6185, 800));
    let target = ping_target("https://example.com/", 0).expect("target");
    assert_eq!((target.host.as_str(), target.port, target.timeout_ms), ("example.com", 443, 50));
    let target = ping_target("custom://host/", 49).expect("target");
    assert_eq!((target.port, target.timeout_ms), (80, 50));
    assert!(ping_target("mailto:someone@example.com", 800).is_none());
    assert!(ping_target("nonsense", 800).is_none());
}

#[test]
fn requests_carry_canonical_headers() {
    let request = build_backend_request(
        "http://127.0.0.1:6185/base/",
        "POST",
        "/api/x?y=1&z=2",
        20,
        Some("{\"k\":\"é\"}"),
        Some(" t0ken "),
    )
    .expect("request");
    assert_eq!(request.target.timeout_ms, 50);
    assert_eq!(
        request.text,
        "POST /api/x?y=1&z=2 HTTP/1.1\r\nHost: 127.0.0.1\r\nAccept: application/json\r\nAccept-Encoding: identity\r\nConnection: close\r\nAuthorization: Bearer t0ken\r\nContent-Type: application/json\r\nContent-Length: 10\r\n\r\n{\"k\":\"é\"}"
    );
    let request =
        build_backend_request("http://h:9/base/", "GET", "rel", 100, None, Some("  ")).expect("request");
    assert!(request.text.starts_with("GET /base/rel HTTP/1.1\r\nHost: h\r\n"));
    assert!(!request.text.contains("Authorization"));
    assert!(request.text.ends_with("Content-Length: 0\r\n\r\n"));
    assert!(build_backend_request("http://h/", "GET", "https://h/x", 100, None, None).is_none());
    assert!(build_backend_request("http://h/", "GET", "http://[bad", 100, None, None).is_none());
    assert!(build_backend_request("ftp://h/", "GET", "/x", 100, None, None).is_none());
}

#[test]
fn child_slot_and_rotation_worker_move_together() {
    let mut state = BackendState::new("http://127.0.0.1:6185/");
    assert!(!state.has_managed_child());
    assert_eq!(state.start_backend_log_rotation_worker(5), (None, false));
    assert_eq!(state.log_rotator_pid(), None);

    assert!(state.record_spawned_child(5, false));
    assert_eq!((state.managed_child_pid(), state.log_rotator_pid()), (Some(5), None));
    assert!(!state.record_spawned_child(6, true));
    assert_eq!((state.managed_child_pid(), state.log_rotator_pid()), (Some(5), None));

    assert_eq!(state.start_backend_log_rotation_worker(6), (None, false));
    assert_eq!(state.start_backend_log_rotation_worker(5), (None, true));
    assert_eq!(state.start_backend_log_rotation_worker(5), (Some(5), true));
    assert_eq!(state.stop_backend_log_rotation_worker(), Some(5));
    assert_eq!(state.stop_backend_log_rotation_worker(), None);
    assert_eq!(state.start_backend_log_rotation_worker(5), (None, true));
    assert_eq!(state.clear_child(), Some(5));
    assert_eq!((state.managed_child_pid(), state.log_rotator_pid()), (None, None));
    assert!(state.record_spawned_child(9, true));
    assert_eq!((state.managed_child_pid(), state.log_rotator_pid()), (Some(9), Some(9)));
}

#[test]
fn single_flight_flags_fail_fast() {
    let mut state = BackendState::new("");
    assert!(!state.is_backend_action_in_progress());
    assert!(state.try_begin_spawn());
    assert!(!state.try_begin_spawn());
    assert!(state.try_begin_restart());
    assert!(!state.try_begin_restart());
    state.end_spawn();
    assert!(state.is_backend_action_in_progress());
    state.begin_spawn();
    state.begin_spawn();
    state.end_spawn();
    state.end_restart();
    assert!(!state.is_backend_action_in_progress());
    assert_eq!(
        state.bridge_state(true, false),
        BackendBridgeState { running: true, spawning: false, restarting: false, can_manage: false }
    );
    assert!(state.bridge_state(false, true).can_manage);
    state.record_spawned_child(1, false);
    state.begin_spawn();
    assert_eq!(
        state.bridge_state(false, false),
        BackendBridgeState { running: false, spawning: true, restarting: false, can_manage: true }
    );
}

#[test]
fn state_carries_exit_lifecycle_and_token() {
    let mut state = BackendState::new("");
    assert!(!state.is_quitting());
    state.mark_quitting();
    assert!(state.is_quitting());
    assert!(!state.take_exit_request_allowance());
    assert!(state.try_begin_exit_cleanup());
    assert!(!state.try_begin_exit_cleanup());
    state.allow_next_exit_request();
    assert!(state.take_exit_request_allowance());
    assert!(!state.take_exit_request_allowance());
    assert!(ExitLifecycleState::default() == ExitLifecycleState::Running);

    assert_eq!(state.get_restart_auth_token(), None);
    state.set_restart_auth_token(Some(" abc "));
    assert_eq!(state.get_restart_auth_token(), Some("abc".to_string()));
    state.set_restart_auth_token(Some("a\rb"));
    assert_eq!(state.get_restart_auth_token(), None);
}

#[test]
fn rotation_worker_goes_on_only_for_the_live_managed_child() {
    assert_eq!(child_matches_pid_and_alive(Some(4), 4, ChildPoll::Running, ""), (true, None));
    assert_eq!(child_matches_pid_and_alive(Some(5), 4, ChildPoll::Running, ""), (false, None));
    assert_eq!(child_matches_pid_and_alive(None, 4, ChildPoll::Running, ""), (false, None));
    assert_eq!(
        child_matches_pid_and_alive(Some(4), 4, ChildPoll::Exited, "exit status: 0"),
        (
            false,
            Some(
                "backend process exited, stop log rotator worker: pid=4, status=exit status: 0"
                    .to_string()
            )
        )
    );
    assert_eq!(
        child_matches_pid_and_alive(Some(4), 4, ChildPoll::Failed, "denied"),
        (
            false,
            Some(
                "failed to poll backend process status for log rotator worker pid=4: denied"
                    .to_string()
            )
        )
    );
}

#[test]
fn stop_clears_slot_only_after_exit() {
    let mut state = BackendState::new("");
    let plan = begin_stop_backend(&mut state, StopPlatform::Posix);
    assert!(plan.escalation.is_none() && plan.stopped_worker.is_none());

    state.record_spawned_child(12, true);
    let plan = begin_stop_backend(&mut state, StopPlatform::Posix);
    assert_eq!(plan.stopped_worker, Some(12));
    assert_eq!(plan.escalation.expect("escalation").stage(), StopStage::Idle);
    assert_eq!(state.log_rotator_pid(), None);
    assert_eq!(
        stop_backend(&mut state, false),
        Some("Backend process did not exit after 10000ms graceful stop timeout.".to_string())
    );
    assert_eq!(state.managed_child_pid(), Some(12));
    assert_eq!(stop_backend(&mut state, true), None);
    assert_eq!(state.managed_child_pid(), None);

    assert_eq!(stop_backend_for_bridge(&state, false), (BridgeStop::NothingToStop, None));
    assert_eq!(
        stop_backend_for_bridge(&state, true),
        (
            BridgeStop::Refuse,
            Some("Backend is running but not managed by desktop process.".to_string())
        )
    );
    state.record_spawned_child(13, false);
    assert_eq!(stop_backend_for_bridge(&state, true), (BridgeStop::StopManaged, None));
}

#[test]
fn bootstrap_script_names_the_event_everywhere() {
    assert_eq!(
        desktop_bridge_bootstrap_script(
            "on('{TRAY_RESTART_BACKEND_EVENT}'); off(\"{TRAY_RESTART_BACKEND_EVENT}\")",
            "astrbot://tray-restart-backend"
        ),
        "on('astrbot://tray-restart-backend'); off(\"astrbot://tray-restart-backend\")"
    );
    assert_eq!(desktop_bridge_bootstrap_script("nothing to do", "e"), "nothing to do");
    assert_eq!(desktop_bridge_bootstrap_script("", "e"), "");
    assert_eq!(
        desktop_bridge_bootstrap_script("{TRAY_RESTART_BACKEND_EVENT}{TRAY_RESTART_BACKEND_EVENT", ""),
        "{TRAY_RESTART_BACKEND_EVENT"
    );
    assert_eq!(
        desktop_bridge_bootstrap_script("{{TRAY_RESTART_BACKEND_EVENT}}", "{TRAY_RESTART_BACKEND_EVENT}"),
        "{{TRAY_RESTART_BACKEND_EVENT}}"
    );
}

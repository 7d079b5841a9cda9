use backend_supervisor::backend_config::{
    parse_clamped_timeout_env, parse_ping_timeout_env, resolve_backend_readiness_config,
    resolve_backend_ready_http_path, resolve_backend_timeout_ms, EnvValue, TimeoutSetting,
};
use backend_supervisor::backend_runtime::{
    backend_ping_timeout_ms, backend_readiness_config, backend_wait_timeout,
    bridge_backend_ping_timeout_ms, ReadinessEnvironment,
};

#[test]
fn parse_clamped_timeout_returns_value_in_range() {
    let (value, note) = parse_clamped_timeout_env("1200", "TEST_ENV", 500, 100, 5_000);
    assert_eq!(value, 1200);
    assert_eq!(note, None);
}

#[test]
fn parse_clamped_timeout_clamps_too_small_value() {
    let mut logs = Vec::new();
    let (value, note) = parse_clamped_timeout_env("20", "TEST_ENV", 500, 100, 5_000);
    logs.extend(note);
    assert_eq!(value, 100);
    assert!(logs.iter().any(|line| line.contains("below minimum")));
}

#[test]
fn parse_clamped_timeout_falls_back_on_invalid_value() {
    let mut logs = Vec::new();
    let (value, note) = parse_clamped_timeout_env("invalid", "TEST_ENV", 500, 100, 5_000);
    logs.extend(note);
    assert_eq!(value, 500);
    assert!(logs.iter().any(|line| line.contains("invalid TEST_ENV")));
}

#[test]
fn parse_ping_timeout_delegates_to_clamp() {
    let (value, _) = parse_ping_timeout_env("99999", "TEST_ENV", 500, 100, 3_000);
    assert_eq!(value, 3_000);
}

#[test]
fn resolve_backend_timeout_uses_packaged_fallback_when_zero() {
    let timeout = resolve_backend_timeout_ms(true, None, 20_000, 300_000);
    assert_eq!(timeout, Some(300_000));
}

#[test]
fn resolve_backend_timeout_is_none_for_dev_when_env_missing() {
    let timeout = resolve_backend_timeout_ms(false, None, 20_000, 300_000);
    assert_eq!(timeout, Some(20_000));
}

#[test]
fn resolve_backend_timeout_is_none_for_dev_when_env_is_zero() {
    let timeout = resolve_backend_timeout_ms(false, Some("0"), 20_000, 300_000);
    assert_eq!(timeout, None);
}

#[test]
fn clamp_notes_are_rendered_in_full() {
    let (_, low) = parse_clamped_timeout_env(" 20 ", "TEST_ENV", 500, 100, 5_000);
    assert_eq!(
        low.as_deref(),
        Some("TEST_ENV=' 20 ' is below minimum 100ms, clamped to 100ms")
    );
    let (value, high) = parse_clamped_timeout_env("5001", "TEST_ENV", 500, 100, 5_000);
    assert_eq!(value, 5_000);
    assert_eq!(
        high.as_deref(),
        Some("TEST_ENV='5001' is above maximum 5000ms, clamped to 5000ms")
    );
    let (_, invalid) = parse_clamped_timeout_env("-3", "TEST_ENV", 500, 100, 5_000);
    assert_eq!(invalid.as_deref(), Some("invalid TEST_ENV='-3', fallback to 500ms"));
}

#[test]
fn clamp_accepts_bounds_plus_sign_and_huge_numbers() {
    assert_eq!(parse_clamped_timeout_env("100", "E", 500, 100, 5_000).0, 100);
    assert_eq!(parse_clamped_timeout_env("5000", "E", 500, 100, 5_000).0, 5_000);
    assert_eq!(parse_clamped_timeout_env("+250", "E", 500, 100, 5_000), (250, None));
    assert_eq!(
        parse_clamped_timeout_env("0", "TEST_ENV", 500, 100, 5_000),
        (100, Some("TEST_ENV='0' is below minimum 100ms, clamped to 100ms".to_string()))
    );
    assert_eq!(parse_clamped_timeout_env(" 000 ", "E", 500, 100, 5_000).0, 100);
    assert_eq!(parse_clamped_timeout_env("0", "E", 500, 0, 5_000), (0, None));
    assert_eq!(parse_clamped_timeout_env("", "E", 500, 100, 5_000).0, 500);
    assert_eq!(parse_clamped_timeout_env("12ms", "E", 500, 100, 5_000).0, 500);
    // A number stays a number however large it is: it is clamped, not rejected.
    assert_eq!(
        parse_clamped_timeout_env("99999999999999999999999", "E", 500, 100, 5_000).0,
        5_000
    );
    assert_eq!(
        parse_clamped_timeout_env("999999999999999999999999999999999999999999", "E", 500, 100, 5_000),
        (
            5_000,
            Some(
                "E='999999999999999999999999999999999999999999' is above maximum 5000ms, clamped to 5000ms"
                    .to_string()
            )
        )
    );
    assert_eq!(
        parse_clamped_timeout_env("340282366920938463463374607431768211455", "E", 1, 2, 3).0,
        3
    );
    assert_eq!(
        parse_clamped_timeout_env("340282366920938463463374607431768211456", "E", 1, 2, 3).0,
        3
    );
    assert_eq!(
        parse_clamped_timeout_env("18446744073709551615", "E", 1, 2, u64::MAX),
        (u64::MAX, None)
    );
    assert_eq!(parse_clamped_timeout_env("18446744073709551616", "E", 1, 2, u64::MAX).0, u64::MAX);
    assert_eq!(parse_clamped_timeout_env("1e3", "E", 500, 100, 5_000).0, 500);
    assert_eq!(parse_clamped_timeout_env("+", "E", 500, 100, 5_000).0, 500);
}

#[test]
fn ready_http_path_is_normalized() {
    let (path, note) = resolve_backend_ready_http_path(&EnvValue::Unset, "P", "/api/stat/start-time");
    assert_eq!((path.as_str(), note), ("/api/stat/start-time", None));

    let (path, note) =
        resolve_backend_ready_http_path(&EnvValue::Text("  /health ".to_string()), "P", "/d");
    assert_eq!((path.as_str(), note), ("/health", None));

    let (path, note) =
        resolve_backend_ready_http_path(&EnvValue::Text("health".to_string()), "P", "/d");
    assert_eq!(path, "/health");
    assert_eq!(
        note.as_deref(),
        Some("P is missing leading '/': 'health', normalized to '/health'")
    );

    let (path, note) = resolve_backend_ready_http_path(&EnvValue::Text("   ".to_string()), "P", "/d");
    assert_eq!(path, "/d");
    assert_eq!(note.as_deref(), Some("P is empty/whitespace, fallback to default '/d'"));

    let (path, note) =
        resolve_backend_ready_http_path(&EnvValue::NotUnicode("a\u{fffd}".to_string()), "P", "/d");
    assert_eq!(path, "/d");
    assert_eq!(
        note.as_deref(),
        Some("P contains non-UTF-8 value 'a\u{fffd}', fallback to default '/d'")
    );
}

#[test]
fn readiness_config_collects_values_and_notes_in_order() {
    let ((path, probe, poll), notes) = resolve_backend_readiness_config(
        &EnvValue::Text("ready".to_string()),
        "PATH_ENV",
        "/default",
        TimeoutSetting { raw: Some("5"), env_name: "PROBE", fallback_ms: 800, min_ms: 100, max_ms: 30_000 },
        TimeoutSetting { raw: None, env_name: "POLL", fallback_ms: 300, min_ms: 50, max_ms: 10_000 },
    );
    assert_eq!(path, "/ready");
    assert_eq!(probe, 100);
    assert_eq!(poll, 300);
    assert_eq!(notes.len(), 2);
    assert!(notes[0].starts_with("PATH_ENV is missing leading '/'"));
    assert_eq!(notes[1], "PROBE='5' is below minimum 100ms, clamped to 100ms");
}

#[test]
fn runtime_settings_use_documented_defaults_and_ranges() {
    assert_eq!(backend_wait_timeout(true, None), 300_000);
    assert_eq!(backend_wait_timeout(false, None), 20_000);
    assert_eq!(backend_wait_timeout(false, Some("0")), 20_000);
    assert_eq!(backend_wait_timeout(false, Some(" 1500 ")), 1_500);
    assert_eq!(backend_wait_timeout(true, Some("nonsense")), 300_000);

    assert_eq!(backend_ping_timeout_ms(None), (800, None));
    assert_eq!(backend_ping_timeout_ms(Some("10")).0, 50);
    assert_eq!(backend_ping_timeout_ms(Some("999999")).0, 30_000);
    assert_eq!(bridge_backend_ping_timeout_ms(None, 1234), (1234, None));
    assert_eq!(bridge_backend_ping_timeout_ms(Some("x"), 1234).0, 1234);

    let env = ReadinessEnvironment {
        ready_http_path: EnvValue::Unset,
        probe_timeout: Some("50".to_string()),
        poll_interval: Some("20000".to_string()),
        ping_timeout: Some("bad".to_string()),
    };
    let (config, notes) = backend_readiness_config(&env);
    assert_eq!(config.path, "/api/stat/start-time");
    assert_eq!(config.probe_timeout_ms, 100);
    assert_eq!(config.poll_interval_ms, 10_000);
    assert_eq!(
        notes,
        vec![
            "invalid ASTRBOT_BACKEND_PING_TIMEOUT_MS='bad', fallback to 800ms".to_string(),
            "ASTRBOT_BACKEND_READY_PROBE_TIMEOUT_MS='50' is below minimum 100ms, clamped to 100ms"
                .to_string(),
            "ASTRBOT_BACKEND_READY_POLL_INTERVAL_MS='20000' is above maximum 10000ms, clamped to 10000ms"
                .to_string(),
        ]
    );

    let unset = ReadinessEnvironment {
        ready_http_path: EnvValue::Unset,
        probe_timeout: None,
        poll_interval: None,
        ping_timeout: Some("2000".to_string()),
    };
    let (config, notes) = backend_readiness_config(&unset);
    assert_eq!(config.probe_timeout_ms, 2_000);
    assert_eq!(config.poll_interval_ms, 300);
    assert!(notes.is_empty());
}

use backend_supervisor::logging::{
    append_desktop_log, named_directory, resolve_backend_log_path, resolve_desktop_log_path,
    rotate_log_if_needed, rotated_log_path, DesktopLogCategory, RotationOp,
};
use backend_supervisor::shell_locale::{
    read_cached_shell_locale, resolve_shell_locale, write_cached_shell_locale, StateFile,
};

fn joined(parts: &[&str]) -> String {
    let mut path = std::path::PathBuf::new();
    for part in parts {
        path.push(part);
    }
    path.to_string_lossy().into_owned()
}

fn describe(op: &RotationOp) -> String {
    match op {
        RotationOp::Remove(path) => format!("rm {path}"),
        RotationOp::Shift(from, to) => format!("shift {from} {to}"),
        RotationOp::Rename(from, to) => format!("mv {from} {to}"),
        RotationOp::CopyThenTruncate(from, to) => format!("copytruncate {from} {to}"),
    }
}

fn plan(size: Option<u64>, max_bytes: u64, backup_count: usize, copy_and_truncate: bool) -> Vec<String> {
    rotate_log_if_needed("b.log", size, max_bytes, backup_count, copy_and_truncate)
        .iter()
        .map(describe)
        .collect()
}

#[test]
fn rotation_shifts_backups_oldest_first() {
    assert_eq!(
        plan(Some(100), 100, 3, false),
        vec![
            "rm b.log.3",
            "shift b.log.2 b.log.3",
            "shift b.log.1 b.log.2",
            "rm b.log.1",
            "mv b.log b.log.1",
        ]
    );
    assert_eq!(
        plan(Some(101), 100, 1, true),
        vec!["rm b.log.1", "rm b.log.1", "copytruncate b.log b.log.1"]
    );
    assert_eq!(plan(Some(u64::MAX), 1, 12, true).len(), 14);
    assert_eq!(plan(Some(u64::MAX), 1, 12, true)[1], "shift b.log.11 b.log.12");
}

#[test]
fn rotation_is_skipped_when_off_small_or_missing() {
    assert!(plan(Some(99), 100, 3, false).is_empty());
    assert!(plan(None, 100, 3, false).is_empty());
    assert!(plan(Some(500), 0, 3, false).is_empty());
    assert!(plan(Some(500), 100, 0, true).is_empty());
    assert!(plan(Some(0), 0, 0, true).is_empty());
}

#[test]
fn log_lines_and_backup_names_are_rendered() {
    assert_eq!(rotated_log_path("/l/backend.log", 1), "/l/backend.log.1");
    assert_eq!(rotated_log_path("x", 120), "x.120");
    assert_eq!(rotated_log_path("", 0), ".0");
    assert_eq!(DesktopLogCategory::Startup.as_label(), "startup");
    assert_eq!(DesktopLogCategory::Runtime.as_label(), "runtime");
    assert_eq!(DesktopLogCategory::Restart.as_label(), "restart");
    assert_eq!(DesktopLogCategory::Shutdown.as_label(), "shutdown");
    assert_eq!(
        append_desktop_log("2026-01-02 03:04:05.678 +0000", DesktopLogCategory::Restart, "hello"),
        "[2026-01-02 03:04:05.678 +0000] [restart] hello\n"
    );
}

#[test]
fn log_paths_follow_environment_then_roots_then_temp() {
    assert_eq!(
        resolve_desktop_log_path(Some(" /c/d.log "), Some("/r"), Some("/p".to_string()), "/tmp", "desktop.log"),
        "/c/d.log"
    );
    assert_eq!(
        resolve_desktop_log_path(Some("  "), Some(" /r "), Some("/p".to_string()), "/tmp", "desktop.log"),
        joined(&["/r", "logs", "desktop.log"])
    );
    assert_eq!(
        resolve_desktop_log_path(None, Some(""), Some("/p".to_string()), "/tmp", "desktop.log"),
        joined(&["/p", "logs", "desktop.log"])
    );
    assert_eq!(
        resolve_desktop_log_path(None, None, None, "/tmp", "desktop.log"),
        joined(&["/tmp", "astrbot", "logs", "desktop.log"])
    );
    assert_eq!(
        resolve_backend_log_path(Some(" /plan "), Some("/r"), None, "/tmp"),
        joined(&[" /plan ", "logs", "backend.log"])
    );
    assert_eq!(
        resolve_backend_log_path(None, Some(" /r "), Some("/p".to_string()), "/tmp"),
        joined(&["/r", "logs", "backend.log"])
    );
    assert_eq!(
        resolve_backend_log_path(None, Some(" "), Some("/p".to_string()), "/tmp"),
        joined(&["/p", "logs", "backend.log"])
    );
    assert_eq!(
        resolve_backend_log_path(None, None, None, "/tmp"),
        joined(&["/tmp", "astrbot", "logs", "backend.log"])
    );
    assert_eq!(named_directory(Some(" a ")), Some("a"));
    assert_eq!(named_directory(Some("")), None);
    assert_eq!(named_directory(None), None);
}

#[test]
fn cached_locale_is_read_from_state_document() {
    assert_eq!(read_cached_shell_locale(Some(r#"{"locale":"en_GB","other":1}"#)), Some("en-US"));
    assert_eq!(read_cached_shell_locale(Some(r#"{"locale":"zh-CN"}"#)), Some("zh-CN"));
    assert_eq!(read_cached_shell_locale(Some(r#"{"locale":"fr"}"#)), None);
    assert_eq!(read_cached_shell_locale(Some(r#"{"locale":5}"#)), None);
    assert_eq!(read_cached_shell_locale(Some(r#"{}"#)), None);
    assert_eq!(read_cached_shell_locale(Some(r#"["locale"]"#)), None);
    assert_eq!(read_cached_shell_locale(Some("not json")), None);
    assert_eq!(read_cached_shell_locale(None), None);
}

#[test]
fn shell_locale_prefers_cache_then_environment_then_default() {
    assert_eq!(
        resolve_shell_locale("zh-CN", Some(r#"{"locale":"en"}"#), Some("zh"), None, None),
        "en-US"
    );
    assert_eq!(resolve_shell_locale("zh-CN", Some("{}"), Some("en_US.UTF-8"), Some("zh"), None), "en-US");
    assert_eq!(resolve_shell_locale("zh-CN", None, Some("C"), Some("en"), Some("zh")), "en-US");
    assert_eq!(resolve_shell_locale("en-US", None, None, Some("POSIX"), Some("zh_CN.UTF-8")), "zh-CN");
    assert_eq!(resolve_shell_locale("en-US", None, None, None, None), "en-US");
    assert_eq!(resolve_shell_locale("zh-CN", None, Some("fr"), Some("de"), Some("C")), "zh-CN");
}

fn parsed(text: &str) -> serde_json::Value {
    serde_json::from_str(text).expect("state document")
}

#[test]
fn locale_state_is_merged_into_existing_document() {
    let file = StateFile::Text(r#"{"window":{"w":800},"locale":"zh-CN"}"#.to_string());
    let (text, notes) = write_cached_shell_locale(Some("EN"), Some("/s.json"), &file);
    let text = text.expect("state text").expect("content");
    assert!(notes.is_empty());
    assert_eq!(parsed(&text), parsed(r#"{"window":{"w":800},"locale":"en-US"}"#));
    assert!(text.contains('\n'));

    let (text, notes) = write_cached_shell_locale(None, Some("/s.json"), &file);
    assert_eq!(parsed(&text.expect("state text").expect("content")), parsed(r#"{"window":{"w":800}}"#));
    assert!(notes.is_empty());

    let (text, notes) = write_cached_shell_locale(Some("fr"), Some("/s.json"), &file);
    assert_eq!(parsed(&text.expect("state text").expect("content")), parsed(r#"{"window":{"w":800}}"#));
    assert_eq!(notes, vec!["unsupported shell locale 'fr'; clearing cached locale".to_string()]);
}

#[test]
fn locale_state_tolerates_missing_and_corrupt_files() {
    let (text, notes) = write_cached_shell_locale(Some("zh"), Some("/s.json"), &StateFile::Missing);
    assert_eq!(text.expect("state text").as_deref(), Some("{\n  \"locale\": \"zh-CN\"\n}"));
    assert!(notes.is_empty());

    let (text, notes) = write_cached_shell_locale(None, Some("/s.json"), &StateFile::Missing);
    assert_eq!(text.expect("state text").as_deref(), Some("{}"));
    assert!(notes.is_empty());

    let (text, notes) =
        write_cached_shell_locale(Some("en"), Some("/s.json"), &StateFile::Text("{broken".to_string()));
    assert_eq!(parsed(&text.expect("state text").expect("content")), parsed(r#"{"locale":"en-US"}"#));
    assert_eq!(notes.len(), 1);
    assert!(notes[0].starts_with("failed to parse shell locale state /s.json: "));
    assert!(notes[0].ends_with(". resetting state file"));

    let (text, notes) =
        write_cached_shell_locale(Some("en"), Some("/s.json"), &StateFile::Text("[1,2]".to_string()));
    assert_eq!(parsed(&text.expect("state text").expect("content")), parsed(r#"{"locale":"en-US"}"#));
    assert_eq!(
        notes,
        vec!["shell locale state /s.json has non-object root; resetting state file".to_string()]
    );

    let (text, notes) = write_cached_shell_locale(
        Some("xx"),
        Some("/s.json"),
        &StateFile::Unreadable("permission denied".to_string()),
    );
    assert_eq!(
        text,
        Err("Failed to read shell locale state /s.json: permission denied".to_string())
    );
    assert_eq!(notes, vec!["unsupported shell locale 'xx'; clearing cached locale".to_string()]);

    let (text, notes) = write_cached_shell_locale(Some("en"), None, &StateFile::Missing);
    assert_eq!(text, Ok(None));
    assert_eq!(
        notes,
        vec!["shell locale state path is unavailable; skipping locale persistence".to_string()]
    );
}

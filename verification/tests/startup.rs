use backend_supervisor::packaged_webui::{
    packaged_webui_unavailable_error, resolve_packaged_webui_dir, WebuiFiles,
};
use backend_supervisor::shell_locale::{
    desktop_state_path_for_locale, normalize_shell_locale, shell_texts_for_locale,
};
use backend_supervisor::startup_loading::{resolve_startup_loading_mode_uncached, PlannedWebui};
use backend_supervisor::startup_mode::{
    resolve_mode_from_env, resolve_mode_from_webui_dir, StartupMode,
};
use backend_supervisor::webui_paths::{
    packaged_fallback_webui_dir, packaged_fallback_webui_index_display,
    packaged_fallback_webui_probe_dir,
};
use std::path::Path;

fn joined(parts: &[&str]) -> String {
    let mut path = std::path::PathBuf::new();
    for part in parts {
        path.push(part);
    }
    path.to_string_lossy().into_owned()
}

#[test]
fn packaged_webui_unavailable_error_renders_english_message() {
    let message = packaged_webui_unavailable_error("en-US", None);
    assert!(message.contains("Packaged WebUI directory is missing"));
}

#[test]
fn packaged_webui_unavailable_error_names_index_and_follows_locale() {
    assert_eq!(
        packaged_webui_unavailable_error("en-US", Some("/x/index.html")),
        "Packaged WebUI is unavailable. Missing embedded index at /x/index.html and fallback data/dist. Please reinstall AstrBot or download the matching dist.zip to data/dist."
    );
    assert_eq!(
        packaged_webui_unavailable_error("zh-CN", Some("/x/index.html")),
        "内置 WebUI 不可用。缺少内置入口文件：/x/index.html，且回退目录 data/dist 也不可用。请重装 AstrBot，或下载匹配版本的 dist.zip 到 data/dist。"
    );
    assert_eq!(
        packaged_webui_unavailable_error("fr-FR", None),
        "内置 WebUI 目录缺失，且回退目录 data/dist 也不可用。请重装 AstrBot，或下载匹配版本的 dist.zip 到 data/dist。"
    );
}

#[test]
fn shell_texts_for_locale_returns_english_copy() {
    let texts = shell_texts_for_locale("en-US");
    assert_eq!(texts.tray_hide, "Hide AstrBot");
    assert_eq!(texts.tray_quit, "Quit");
}

#[test]
fn shell_texts_for_locale_falls_back_to_zh_cn_copy() {
    let texts = shell_texts_for_locale("zh-CN");
    assert_eq!(texts.tray_hide, "隐藏 AstrBot");
    assert_eq!(texts.tray_quit, "退出");
}

#[test]
fn shell_texts_cover_every_label() {
    let english = shell_texts_for_locale("en-US");
    assert_eq!(english.tray_show, "Show AstrBot");
    assert_eq!(english.tray_reload, "Reload");
    assert_eq!(english.tray_restart_backend, "Restart Backend");
    let other = shell_texts_for_locale("en-us");
    assert_eq!(other.tray_show, "显示 AstrBot");
    assert_eq!(other.tray_reload, "重新加载");
    assert_eq!(other.tray_restart_backend, "重启后端");
}

#[test]
fn normalize_shell_locale_accepts_language_prefixes() {
    assert_eq!(normalize_shell_locale("EN_us"), Some("en-US"));
    assert_eq!(normalize_shell_locale("zh_TW"), Some("zh-CN"));
    assert_eq!(normalize_shell_locale("fr-FR"), None);
}

#[test]
fn normalize_shell_locale_trims_and_rejects_blank() {
    assert_eq!(normalize_shell_locale("  zh-CN\n"), Some("zh-CN"));
    assert_eq!(normalize_shell_locale("en-US"), Some("en-US"));
    assert_eq!(normalize_shell_locale("english"), Some("en-US"));
    assert_eq!(normalize_shell_locale(""), None);
    assert_eq!(normalize_shell_locale("   "), None);
    assert_eq!(normalize_shell_locale("C.UTF-8"), None);
    assert_eq!(normalize_shell_locale("e"), None);
}

#[test]
fn locale_state_path_prefers_root_from_environment() {
    assert_eq!(
        desktop_state_path_for_locale(Some(" /r "), Some("/p")),
        Some(joined(&["/r", "data", "desktop_state.json"]))
    );
    assert_eq!(
        desktop_state_path_for_locale(Some("  "), Some("/p")),
        Some(joined(&["/p", "data", "desktop_state.json"]))
    );
    assert_eq!(desktop_state_path_for_locale(None, None), None);
}

#[test]
fn resolve_mode_from_env_accepts_panel_update_case_insensitive() {
    let (mode, message) = resolve_mode_from_env("Panel-Update", "TEST_ENV");
    assert_eq!(mode, StartupMode::PanelUpdate);
    assert!(message
        .expect("expected panel-update env message")
        .contains("forced to panel-update"));
}

#[test]
fn resolve_mode_from_env_rejects_unknown_values() {
    let (mode, message) = resolve_mode_from_env("foo", "TEST_ENV");
    assert_eq!(mode, StartupMode::Loading);
    assert!(message
        .expect("expected invalid env warning")
        .contains("invalid startup mode"));
}

#[test]
fn resolve_mode_from_env_is_silent_for_loading_and_blank() {
    assert_eq!(resolve_mode_from_env(" LOADING ", "E"), (StartupMode::Loading, None));
    assert_eq!(resolve_mode_from_env("   ", "E"), (StartupMode::Loading, None));
    assert_eq!(
        resolve_mode_from_env(" foo ", "E"),
        (
            StartupMode::Loading,
            Some("invalid startup mode in E: foo, fallback to loading".to_string())
        )
    );
    assert_eq!(StartupMode::Loading.as_str(), "loading");
    assert_eq!(StartupMode::PanelUpdate.as_str(), "panel-update");
}

#[test]
fn resolve_mode_from_webui_dir_needs_directory_with_index() {
    assert_eq!(resolve_mode_from_webui_dir(Some("/w"), true), (StartupMode::Loading, None));
    assert_eq!(
        resolve_mode_from_webui_dir(Some("/w"), false),
        (
            StartupMode::PanelUpdate,
            Some("startup mode set to panel-update: webui index is unavailable at /w".to_string())
        )
    );
    assert_eq!(
        resolve_mode_from_webui_dir(None, true),
        (
            StartupMode::PanelUpdate,
            Some(
                "startup mode set to panel-update: launch plan does not provide webui_dir"
                    .to_string()
            )
        )
    );
}

#[test]
fn packaged_fallback_prefers_explicit_root_dir() {
    let temp_dir = Path::new("/tmp").join("astrbot-webui-paths-explicit");
    let probe_dir = temp_dir.join("data").join("dist");
    let root = temp_dir.to_string_lossy().into_owned();

    let resolved = packaged_fallback_webui_dir(Some(&root), None, true);
    assert_eq!(resolved, Some(probe_dir.to_string_lossy().into_owned()));
    assert_eq!(
        packaged_fallback_webui_dir(Some(&root), Some("/other".to_string()), true),
        Some(probe_dir.to_string_lossy().into_owned())
    );
    assert_eq!(packaged_fallback_webui_dir(Some(&root), None, false), None);
}

#[test]
fn packaged_fallback_display_unresolved_when_no_root_available() {
    let display = packaged_fallback_webui_index_display(None, None);
    assert_eq!(display, "<unresolved>");
}

#[test]
fn packaged_fallback_paths_are_joined_with_the_platform_separator() {
    assert_eq!(
        packaged_fallback_webui_probe_dir(None, Some("/p".to_string())),
        Some(Path::new("/p").join("data").join("dist").to_string_lossy().into_owned())
    );
    assert_eq!(packaged_fallback_webui_probe_dir(None, None), None);
    assert_eq!(
        packaged_fallback_webui_index_display(Some("/r"), None),
        joined(&["/r", "data", "dist", "index.html"])
    );
}

#[test]
fn packaged_webui_dir_falls_back_and_reports() {
    let both = WebuiFiles { embedded_index_is_file: true, fallback_index_is_file: true };
    let only_fallback = WebuiFiles { embedded_index_is_file: false, fallback_index_is_file: true };
    let none = WebuiFiles { embedded_index_is_file: false, fallback_index_is_file: false };

    let (dir, notes) =
        resolve_packaged_webui_dir(Some("/e".to_string()), Some("/r"), None, "en-US", both);
    assert_eq!(dir, Ok("/e".to_string()));
    assert!(notes.is_empty());

    let (dir, notes) =
        resolve_packaged_webui_dir(Some("/e".to_string()), Some("/r"), None, "en-US", only_fallback);
    assert_eq!(dir, Ok(joined(&["/r", "data", "dist"])));
    assert_eq!(
        notes,
        vec![
            format!(
                "packaged webui index is missing at {}, trying fallback data/dist",
                joined(&["/e", "index.html"])
            ),
            format!("using fallback webui directory: {}", joined(&["/r", "data", "dist"])),
        ]
    );

    let (dir, notes) = resolve_packaged_webui_dir(Some("/e".to_string()), None, None, "en-US", none);
    assert_eq!(
        dir,
        Err(packaged_webui_unavailable_error("en-US", Some(&joined(&["/e", "index.html"]))))
    );
    assert_eq!(
        notes[1],
        format!(
            "packaged webui resolution failed: embedded index missing at {}, fallback index missing at <unresolved>",
            joined(&["/e", "index.html"])
        )
    );

    let (dir, notes) =
        resolve_packaged_webui_dir(None, None, Some("/p".to_string()), "zh-CN", only_fallback);
    assert_eq!(dir, Ok(joined(&["/p", "data", "dist"])));
    assert_eq!(
        notes,
        vec![format!(
            "embedded webui directory not found, using fallback webui directory: {}",
            joined(&["/p", "data", "dist"])
        )]
    );

    let (dir, notes) = resolve_packaged_webui_dir(None, Some("/r"), None, "zh-CN", none);
    assert_eq!(dir, Err(packaged_webui_unavailable_error("zh-CN", None)));
    assert_eq!(
        notes,
        vec![format!(
            "packaged webui resolution failed: embedded webui directory is missing, fallback index missing at {}",
            joined(&["/r", "data", "dist", "index.html"])
        )]
    );
}

#[test]
fn startup_loading_mode_prefers_environment_then_plan() {
    let resolved = PlannedWebui::Resolved(Some("/w".to_string()), true);
    assert_eq!(
        resolve_startup_loading_mode_uncached(Some("panel-update"), "MODE", &resolved),
        ("panel-update", Some("startup mode forced to panel-update by env".to_string()))
    );
    assert_eq!(resolve_startup_loading_mode_uncached(Some(""), "MODE", &resolved), ("loading", None));
    assert_eq!(resolve_startup_loading_mode_uncached(None, "MODE", &resolved), ("loading", None));
    let missing = PlannedWebui::Resolved(Some("/w".to_string()), false);
    assert_eq!(resolve_startup_loading_mode_uncached(None, "MODE", &missing).0, "panel-update");
    let unplanned = PlannedWebui::Resolved(None, true);
    assert_eq!(resolve_startup_loading_mode_uncached(None, "MODE", &unplanned).0, "panel-update");
    let failed = PlannedWebui::Failed("no plan".to_string());
    assert_eq!(
        resolve_startup_loading_mode_uncached(None, "MODE", &failed),
        (
            "loading",
            Some(
                "failed to resolve startup mode from launch plan, fallback to loading: no plan"
                    .to_string()
            )
        )
    );
}

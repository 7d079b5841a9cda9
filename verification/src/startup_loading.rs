//! What the start screen is told of the startup mode, and when.

use vstd::prelude::*;
use vstd::string::StringExecFns;
use crate::notes::{opt_as_str, opt_str_view, opt_view};
use crate::origin_policy::is_web_scheme;
use crate::startup_mode::{
    mode_from_env, mode_from_env_note, mode_from_webui_dir, mode_from_webui_dir_note,
    resolve_mode_from_env, resolve_mode_from_webui_dir, StartupMode, STARTUP_MODE_LOADING,
};
use crate::text::{owned, str_equal};
use crate::urls::{url_path, url_scheme};

verus! {

/// The start screen is the local index page of the main window: not a page
/// of the web, with the path `/` or `/index.html`.
pub open spec fn is_start_screen(webview_label: Seq<char>, page_url: url::Url) -> bool {
    webview_label == "main"@ && !is_web_scheme(url_scheme(page_url)) && (url_path(page_url)
        == "/"@ || url_path(page_url) == "/index.html"@)
}

/// Whether the page that was loaded is the start screen.
pub fn should_apply_startup_loading_mode(webview_label: &str, page_url: &url::Url) -> (apply: bool)
    ensures
        apply == is_start_screen(webview_label@, *page_url),
{
    if !str_equal(webview_label, "main") {
        return false;
    }
    let scheme = page_url.scheme();
    if str_equal(scheme, "http") || str_equal(scheme, "https") {
        return false;
    }
    let path = page_url.path();
    str_equal(path, "/") || str_equal(path, "/index.html")
}

/// What is known of the web assets of the launch plan.
#[derive(Debug)]
pub enum PlannedWebui {
    /// The launch plan could not be resolved; the field holds the error.
    Failed(String),
    /// The directory of the web assets that the plan names, where it names
    /// one, and whether `index.html` in it is a file.
    Resolved(Option<String>, bool),
}

/// The startup mode: what the mode variable asks for where it is set; else
/// what the web assets of the launch plan call for; and `Loading` where
/// there is no plan.
pub open spec fn startup_loading_mode(raw_mode: Option<Seq<char>>, plan: PlannedWebui) -> StartupMode {
    match raw_mode {
        Some(raw) => mode_from_env(raw),
        None => match plan {
            PlannedWebui::Resolved(webui_dir, index_is_file) => mode_from_webui_dir(
                opt_view(webui_dir),
                index_is_file,
            ),
            PlannedWebui::Failed(_) => StartupMode::Loading,
        },
    }
}

/// The line that goes with the startup mode, where there is one.
pub open spec fn startup_loading_mode_note(
    raw_mode: Option<Seq<char>>,
    env_name: Seq<char>,
    plan: PlannedWebui,
) -> Option<Seq<char>> {
    match raw_mode {
        Some(raw) => mode_from_env_note(raw, env_name),
        None => match plan {
            PlannedWebui::Resolved(webui_dir, index_is_file) => mode_from_webui_dir_note(
                opt_view(webui_dir),
                index_is_file,
            ),
            PlannedWebui::Failed(error) => Some(
                "failed to resolve startup mode from launch plan, fallback to loading: "@ + error@,
            ),
        },
    }
}

/// Resolves the startup mode that the start screen is told of. `raw_mode`
/// is the text of the mode variable, `None` where it is unset. The first
/// result is the name of the mode, the second the line to log.
pub fn resolve_startup_loading_mode_uncached(raw_mode: Option<&str>, env_name: &str, plan: &PlannedWebui) -> (outcome:
    (&'static str, Option<String>))
    ensures
        outcome.0@ == startup_loading_mode(opt_str_view(raw_mode), *plan).name(),
        opt_view(outcome.1) == startup_loading_mode_note(opt_str_view(raw_mode), env_name@, *plan),
{
    match raw_mode {
        Some(raw) => {
            let (mode, note) = resolve_mode_from_env(raw, env_name);
            return (mode.as_str(), note);
        },
        None => {},
    }
    match plan {
        PlannedWebui::Resolved(webui_dir, index_is_file) => {
            let (mode, note) = resolve_mode_from_webui_dir(opt_as_str(webui_dir), *index_is_file);
            (mode.as_str(), note)
        },
        PlannedWebui::Failed(error) => {
            let mut note = owned(
                "failed to resolve startup mode from launch plan, fallback to loading: ",
            );
            note.append(error.as_str());
            (STARTUP_MODE_LOADING, Some(note))
        },
    }
}

} // verus!

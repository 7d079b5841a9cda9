//! What the window shows while the backend starts: a plain loading screen,
//! or the screen that tells of a panel update in progress.

use vstd::prelude::*;
use vstd::string::StringExecFns;
use crate::notes::{opt_str_view, opt_view};
use crate::text::{
    chars_eq_ignoring_ascii_case, chars_of, eq_ignoring_ascii_case, owned, trim, trim_bounds,
};

verus! {

/// The name of the plain loading screen.
pub const STARTUP_MODE_LOADING: &'static str = "loading";

/// The name of the screen that tells of a panel update.
pub const STARTUP_MODE_PANEL_UPDATE: &'static str = "panel-update";

/// What the window shows while the backend starts.
#[derive(Debug, Clone, Copy, PartialEq, Eq, Structural)]
pub enum StartupMode {
    Loading,
    PanelUpdate,
}

impl StartupMode {
    /// The name under which the start screen knows the mode.
    pub open spec fn name(self) -> Seq<char> {
        match self {
            StartupMode::Loading => STARTUP_MODE_LOADING@,
            StartupMode::PanelUpdate => STARTUP_MODE_PANEL_UPDATE@,
        }
    }

    /// The name under which the start screen knows the mode.
    pub fn as_str(self) -> (name: &'static str)
        ensures
            name@ == self.name(),
    {
        match self {
            StartupMode::Loading => STARTUP_MODE_LOADING,
            StartupMode::PanelUpdate => STARTUP_MODE_PANEL_UPDATE,
        }
    }
}

/// The mode that the text of the mode variable asks for: `panel-update` in
/// any case of letters, and `Loading` for everything else.
pub open spec fn mode_from_env(raw_mode: Seq<char>) -> StartupMode {
    if eq_ignoring_ascii_case(trim(raw_mode), STARTUP_MODE_PANEL_UPDATE@) {
        StartupMode::PanelUpdate
    } else {
        StartupMode::Loading
    }
}

/// The line that goes with `mode_from_env`: one for a forced panel update,
/// one for a value that names no mode, none for `loading` or a blank value.
pub open spec fn mode_from_env_note(raw_mode: Seq<char>, env_name: Seq<char>) -> Option<Seq<char>> {
    let normalized = trim(raw_mode);
    if eq_ignoring_ascii_case(normalized, STARTUP_MODE_PANEL_UPDATE@) {
        Some("startup mode forced to panel-update by env"@)
    } else if normalized.len() != 0 && !eq_ignoring_ascii_case(normalized, STARTUP_MODE_LOADING@) {
        Some(
            "invalid startup mode in "@ + env_name + ": "@ + normalized + ", fallback to loading"@,
        )
    } else {
        None
    }
}

/// Resolves the startup mode from the text of the mode variable. The
/// second result is the line to log, where there is one.
pub fn resolve_mode_from_env(raw_mode: &str, env_name: &str) -> (outcome: (
    StartupMode,
    Option<String>,
))
    ensures
        outcome.0 == mode_from_env(raw_mode@),
        opt_view(outcome.1) == mode_from_env_note(raw_mode@, env_name@),
{
    let v = chars_of(raw_mode);
    let (from, to) = trim_bounds(v.as_slice());
    let normalized = raw_mode.substring_char(from, to);
    let field = chars_of(normalized);
    let panel_update = chars_of(STARTUP_MODE_PANEL_UPDATE);
    if chars_eq_ignoring_ascii_case(field.as_slice(), panel_update.as_slice()) {
        return (
            StartupMode::PanelUpdate,
            Some(owned("startup mode forced to panel-update by env")),
        );
    }
    let loading = chars_of(STARTUP_MODE_LOADING);
    if field.len() != 0 && !chars_eq_ignoring_ascii_case(field.as_slice(), loading.as_slice()) {
        let mut note = owned("invalid startup mode in ");
        note.append(env_name);
        note.append(": ");
        note.append(normalized);
        note.append(", fallback to loading");
        return (StartupMode::Loading, Some(note));
    }
    (StartupMode::Loading, None)
}

/// The mode that the web asset directory of the launch plan calls for:
/// `Loading` where the directory is known and holds its `index.html`, and
/// `PanelUpdate` where it does not.
pub open spec fn mode_from_webui_dir(webui_dir: Option<Seq<char>>, index_is_file: bool) -> StartupMode {
    if webui_dir is Some && index_is_file {
        StartupMode::Loading
    } else {
        StartupMode::PanelUpdate
    }
}

/// The line that goes with `mode_from_webui_dir`, where there is one.
pub open spec fn mode_from_webui_dir_note(webui_dir: Option<Seq<char>>, index_is_file: bool) -> Option<
    Seq<char>,
> {
    match webui_dir {
        Some(dir) => if index_is_file {
            None
        } else {
            Some("startup mode set to panel-update: webui index is unavailable at "@ + dir)
        },
        None => Some("startup mode set to panel-update: launch plan does not provide webui_dir"@),
    }
}

/// Resolves the startup mode from the web asset directory of the launch
/// plan. `index_is_file` says whether `index.html` in that directory is a
/// file; it is not looked at where no directory is given.
pub fn resolve_mode_from_webui_dir(webui_dir: Option<&str>, index_is_file: bool) -> (outcome: (
    StartupMode,
    Option<String>,
))
    ensures
        outcome.0 == mode_from_webui_dir(opt_str_view(webui_dir), index_is_file),
        opt_view(outcome.1) == mode_from_webui_dir_note(opt_str_view(webui_dir), index_is_file),
{
    match webui_dir {
        Some(webui_dir) => {
            if !index_is_file {
                let mut note = owned(
                    "startup mode set to panel-update: webui index is unavailable at ",
                );
                note.append(webui_dir);
                (StartupMode::PanelUpdate, Some(note))
            } else {
                (StartupMode::Loading, None)
            }
        },
        None => (
            StartupMode::PanelUpdate,
            Some(owned("startup mode set to panel-update: launch plan does not provide webui_dir")),
        ),
    }
}

} // verus!

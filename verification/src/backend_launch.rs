//! Starting the backend process: what the process is started with, and
//! what is said when the start fails.

use vstd::prelude::*;
use vstd::string::StringExecFns;
use crate::backend_state::BackendState;
use crate::launch_plan::{build_debug_command, LaunchPlan};
use crate::notes::{clone_list, opt_str_view, opt_view, texts};
use crate::paths::{parent_path, path_parent};
use crate::text::owned;

verus! {

/// Keeps the process of a packaged backend off any console.
pub const CREATE_NO_WINDOW: u32 = 0x0800_0000;

/// Puts the process of a packaged backend into a process group of its own.
pub const CREATE_NEW_PROCESS_GROUP: u32 = 0x0000_0200;

/// A list of strings as `{:?}` shows it.
pub uninterp spec fn debug_list_text(parts: Seq<Seq<char>>) -> Seq<char>;

/// The `Debug` rendering of a list of strings, made by `format!`: the
/// strings in quotes and with escapes, separated by commas, in brackets. The
/// contract gives the result the name `debug_list_text`.
#[verifier::external_body]
pub(crate) fn debug_list(parts: &Vec<String>) -> (rendered: String)
    ensures
        rendered@ == debug_list_text(texts(parts@)),
{
    format!("{:?}", parts)
}

/// What the supervisor's own environment holds of the variables that the
/// backend is started with.
#[derive(Debug)]
pub struct SpawnEnvironment {
    /// The text of `PYTHONUTF8`, where it is set.
    pub python_utf8: Option<String>,
    /// The text of `PYTHONIOENCODING`, where it is set.
    pub python_io_encoding: Option<String>,
    /// `DASHBOARD_HOST` or `ASTRBOT_DASHBOARD_HOST` is set.
    pub dashboard_host_set: bool,
    /// `DASHBOARD_PORT` or `ASTRBOT_DASHBOARD_PORT` is set.
    pub dashboard_port_set: bool,
    /// The search path to start the backend with, where it differs from
    /// the supervisor's own.
    pub path_override: Option<String>,
}

/// One variable with its value.
pub open spec fn setting(name: Seq<char>, value: Seq<char>) -> Seq<(Seq<char>, Seq<char>)> {
    seq![(name, value)]
}

/// One variable with its value, where the value is there.
pub open spec fn optional_setting(name: Seq<char>, value: Option<Seq<char>>) -> Seq<
    (Seq<char>, Seq<char>),
> {
    match value {
        Some(value) => seq![(name, value)],
        None => Seq::empty(),
    }
}

/// A value, or the default where there is none.
pub open spec fn value_or(value: Option<Seq<char>>, default: Seq<char>) -> Seq<char> {
    match value {
        Some(value) => value,
        None => default,
    }
}

/// The variables that a packaged backend gets beyond the others: the mark
/// of the desktop client, and the local host and port of the dashboard
/// unless the environment names its own.
pub open spec fn packaged_overlay(env: SpawnEnvironment) -> Seq<(Seq<char>, Seq<char>)> {
    setting("ASTRBOT_DESKTOP_CLIENT"@, "1"@) + optional_setting(
        "DASHBOARD_HOST"@,
        if env.dashboard_host_set {
            None
        } else {
            Some("127.0.0.1"@)
        },
    ) + optional_setting(
        "DASHBOARD_PORT"@,
        if env.dashboard_port_set {
            None
        } else {
            Some("6185"@)
        },
    )
}

/// The variables that the backend is started with, on top of the
/// supervisor's own environment, in the order in which they are set:
/// the three that make Python write UTF-8 without buffering, the search
/// path, those of a packaged backend, and the two directories of the plan.
pub open spec fn environment_overlay(
    plan: LaunchPlan,
    env: SpawnEnvironment,
) -> Seq<(Seq<char>, Seq<char>)> {
    setting("PYTHONUNBUFFERED"@, "1"@) + setting(
        "PYTHONUTF8"@,
        value_or(opt_view(env.python_utf8), "1"@),
    ) + setting("PYTHONIOENCODING"@, value_or(opt_view(env.python_io_encoding), "utf-8"@))
        + optional_setting("PATH"@, opt_view(env.path_override)) + (if plan.packaged_mode {
        packaged_overlay(env)
    } else {
        Seq::empty()
    }) + optional_setting("ASTRBOT_ROOT"@, opt_view(plan.root_dir)) + optional_setting(
        "ASTRBOT_WEBUI_DIR"@,
        opt_view(plan.webui_dir),
    )
}

/// The texts of a list of variables with their values.
pub open spec fn settings(pairs: Seq<(String, String)>) -> Seq<(Seq<char>, Seq<char>)> {
    pairs.map_values(|pair: (String, String)| (pair.0@, pair.1@))
}

/// A directory that has to be there before the process starts.
#[derive(Debug)]
pub struct NeededDirectory {
    pub path: String,
    /// What to report where the directory cannot be made.
    pub on_failure: SpawnFailure,
    /// Whether the directory is made without a look whether it is there.
    pub always: bool,
}

/// A needed directory as values of the mathematical model.
pub struct NeededDirectoryView {
    pub path: Seq<char>,
    pub on_failure: SpawnFailure,
    pub always: bool,
}

impl View for NeededDirectory {
    type V = NeededDirectoryView;

    open spec fn view(&self) -> NeededDirectoryView {
        NeededDirectoryView { path: self.path@, on_failure: self.on_failure, always: self.always }
    }
}

/// The views of a list of needed directories.
pub open spec fn directory_views(directories: Seq<NeededDirectory>) -> Seq<NeededDirectoryView> {
    directories.map_values(|directory: NeededDirectory| directory@)
}

/// The directories that have to be there before the process starts, in
/// the order in which they are made: the working directory and the root
/// directory, each where it is missing, and the directory of the log.
pub open spec fn needed_directories(plan: LaunchPlan, log_path: Seq<char>) -> Seq<
    NeededDirectoryView,
> {
    seq![
        NeededDirectoryView {
            path: plan.cwd@,
            on_failure: SpawnFailure::CreateCwd,
            always: false,
        },
    ] + (match plan.root_dir {
        Some(root) => seq![
            NeededDirectoryView {
                path: root@,
                on_failure: SpawnFailure::CreateRootDir,
                always: false,
            },
        ],
        None => Seq::empty(),
    }) + (match parent_path(log_path) {
        Some(parent) => seq![
            NeededDirectoryView {
                path: parent,
                on_failure: SpawnFailure::CreateLogDir,
                always: true,
            },
        ],
        None => Seq::empty(),
    })
}

/// What the process of the backend is started with.
#[derive(Debug)]
pub struct SpawnRequest {
    pub program: String,
    pub args: Vec<String>,
    pub cwd: String,
    /// The variables to set on top of the supervisor's own environment.
    pub env: Vec<(String, String)>,
    /// The flags to create the process with on Windows, zero for none.
    pub creation_flags: u32,
    /// The file that the output of the process is appended to.
    pub log_path: String,
    /// The directories to make before the start.
    pub directories: Vec<NeededDirectory>,
}

/// Adds one variable with its value.
fn push_setting(pairs: &mut Vec<(String, String)>, name: &str, value: &str)
    ensures
        settings(final(pairs)@) == settings(old(pairs)@) + setting(name@, value@),
{
    pairs.push((owned(name), owned(value)));
    assert(settings(pairs@) =~= settings(old(pairs)@) + setting(name@, value@));
}

/// Adds one variable with its value, where the value is there.
fn push_optional_setting(pairs: &mut Vec<(String, String)>, name: &str, value: Option<&str>)
    ensures
        settings(final(pairs)@) == settings(old(pairs)@) + optional_setting(
            name@,
            opt_str_view(value),
        ),
{
    match value {
        Some(value) => {
            push_setting(pairs, name, value);
        },
        None => {
            assert(settings(pairs@) =~= settings(old(pairs)@) + Seq::<
                (Seq<char>, Seq<char>),
            >::empty());
        },
    }
}

/// Plans the start of the backend process from the launch plan. The
/// process runs detached from any console, in a process group of its own,
/// where it is that of a packaged backend on Windows.
pub fn plan_backend_spawn(
    plan: &LaunchPlan,
    env: &SpawnEnvironment,
    log_path: &str,
    is_windows: bool,
) -> (request: SpawnRequest)
    ensures
        request.program@ == plan.cmd@,
        texts(request.args@) == texts(plan.args@),
        request.cwd@ == plan.cwd@,
        settings(request.env@) == environment_overlay(*plan, *env),
        request.creation_flags == (if is_windows && plan.packaged_mode {
            CREATE_NO_WINDOW | CREATE_NEW_PROCESS_GROUP
        } else {
            0
        }),
        request.log_path@ == log_path@,
        directory_views(request.directories@) == needed_directories(*plan, log_path@),
{
    let mut pairs: Vec<(String, String)> = Vec::new();
    assert(settings(pairs@) =~= Seq::<(Seq<char>, Seq<char>)>::empty());
    push_setting(&mut pairs, "PYTHONUNBUFFERED", "1");
    push_setting(
        &mut pairs,
        "PYTHONUTF8",
        match &env.python_utf8 {
            Some(value) => value.as_str(),
            None => "1",
        },
    );
    push_setting(
        &mut pairs,
        "PYTHONIOENCODING",
        match &env.python_io_encoding {
            Some(value) => value.as_str(),
            None => "utf-8",
        },
    );
    push_optional_setting(&mut pairs, "PATH", crate::notes::opt_as_str(&env.path_override));
    let ghost common = settings(pairs@);
    if plan.packaged_mode {
        push_setting(&mut pairs, "ASTRBOT_DESKTOP_CLIENT", "1");
        push_optional_setting(
            &mut pairs,
            "DASHBOARD_HOST",
            if env.dashboard_host_set {
                None
            } else {
                Some("127.0.0.1")
            },
        );
        push_optional_setting(
            &mut pairs,
            "DASHBOARD_PORT",
            if env.dashboard_port_set {
                None
            } else {
                Some("6185")
            },
        );
        assert(settings(pairs@) =~= common + packaged_overlay(*env));
    } else {
        assert(settings(pairs@) =~= common + Seq::<(Seq<char>, Seq<char>)>::empty());
    }
    push_optional_setting(&mut pairs, "ASTRBOT_ROOT", crate::notes::opt_as_str(&plan.root_dir));
    push_optional_setting(
        &mut pairs,
        "ASTRBOT_WEBUI_DIR",
        crate::notes::opt_as_str(&plan.webui_dir),
    );
    let mut directories: Vec<NeededDirectory> = Vec::new();
    directories.push(
        NeededDirectory {
            path: plan.cwd.clone(),
            on_failure: SpawnFailure::CreateCwd,
            always: false,
        },
    );
    match &plan.root_dir {
        Some(root) => {
            directories.push(
                NeededDirectory {
                    path: root.clone(),
                    on_failure: SpawnFailure::CreateRootDir,
                    always: false,
                },
            );
        },
        None => {},
    }
    match path_parent(log_path) {
        Some(parent) => {
            directories.push(
                NeededDirectory {
                    path: parent,
                    on_failure: SpawnFailure::CreateLogDir,
                    always: true,
                },
            );
        },
        None => {},
    }
    assert(directory_views(directories@) =~= needed_directories(*plan, log_path@));
    let creation_flags: u32 = if is_windows && plan.packaged_mode {
        CREATE_NO_WINDOW | CREATE_NEW_PROCESS_GROUP
    } else {
        0
    };
    SpawnRequest {
        program: plan.cmd.clone(),
        args: clone_list(&plan.args),
        cwd: plan.cwd.clone(),
        env: pairs,
        creation_flags,
        log_path: owned(log_path),
        directories,
    }
}

/// What can go wrong on the way to a running process.
#[derive(Debug, Clone, Copy, PartialEq, Eq, Structural)]
pub enum SpawnFailure {
    /// The working directory could not be made.
    CreateCwd,
    /// The root directory could not be made.
    CreateRootDir,
    /// The directory of the log could not be made.
    CreateLogDir,
    /// The log could not be opened.
    OpenLog,
    /// The handle of the log could not be duplicated.
    CloneLogHandle,
}

/// The message for a failure on the way to a running process. `subject` is
/// the path that the failure is about, `error` is what the system said.
pub open spec fn spawn_failure_message(failure: SpawnFailure, subject: Seq<char>, error: Seq<char>) -> Seq<
    char,
> {
    match failure {
        SpawnFailure::CreateCwd => "Failed to create backend cwd "@ + subject + ": "@ + error,
        SpawnFailure::CreateRootDir => "Failed to create backend root directory "@ + subject
            + ": "@ + error,
        SpawnFailure::CreateLogDir => "Failed to create backend log directory "@ + subject
            + ": "@ + error,
        SpawnFailure::OpenLog => "Failed to open backend log "@ + subject + ": "@ + error,
        SpawnFailure::CloneLogHandle => "Failed to clone backend log handle: "@ + error,
    }
}

/// Renders the message for a failure on the way to a running process.
pub fn describe_spawn_failure(failure: SpawnFailure, subject: &str, error: &str) -> (message: String)
    ensures
        message@ == spawn_failure_message(failure, subject@, error@),
{
    let mut message = match failure {
        SpawnFailure::CreateCwd => owned("Failed to create backend cwd "),
        SpawnFailure::CreateRootDir => owned("Failed to create backend root directory "),
        SpawnFailure::CreateLogDir => owned("Failed to create backend log directory "),
        SpawnFailure::OpenLog => owned("Failed to open backend log "),
        SpawnFailure::CloneLogHandle => {
            let mut message = owned("Failed to clone backend log handle: ");
            message.append(error);
            return message;
        },
    };
    message.append(subject);
    message.append(": ");
    message.append(error);
    message
}

/// The message for a process that could not be started.
pub open spec fn spawn_error_message(plan: LaunchPlan, error: Seq<char>) -> Seq<char> {
    "Failed to spawn backend process with command "@ + debug_list_text(
        seq![plan.cmd@] + texts(plan.args@),
    ) + ": "@ + error
}

/// Renders the message for a process that could not be started.
pub fn describe_spawn_error(plan: &LaunchPlan, error: &str) -> (message: String)
    ensures
        message@ == spawn_error_message(*plan, error@),
{
    let command = build_debug_command(plan);
    let mut message = owned("Failed to spawn backend process with command ");
    message.append(debug_list(&command).as_str());
    message.append(": ");
    message.append(error);
    message
}

/// The line logged for a process that was started.
pub open spec fn spawned_note(plan: LaunchPlan) -> Seq<char> {
    "spawned backend: cmd="@ + debug_list_text(seq![plan.cmd@] + texts(plan.args@)) + ", cwd="@
        + plan.cwd@
}

/// What the start of the backend process begins with.
#[derive(Debug, Clone, Copy, PartialEq, Eq, Structural)]
pub enum StartDecision {
    /// A process is managed already; nothing is started.
    AlreadyManaged,
    /// Start the process that `plan_backend_spawn` plans.
    Spawn,
}

/// Decides whether a process is started: none is where one is managed
/// already. The second result is the line to log then.
pub fn start_backend_process(state: &BackendState) -> (outcome: (StartDecision, Option<String>))
    ensures
        outcome.0 == (if state.child() is Some {
            StartDecision::AlreadyManaged
        } else {
            StartDecision::Spawn
        }),
        opt_view(outcome.1) == (if state.child() is Some {
            Some("backend child already exists, skip re-spawn"@)
        } else {
            None
        }),
{
    if state.has_managed_child() {
        (StartDecision::AlreadyManaged, Some(owned("backend child already exists, skip re-spawn")))
    } else {
        (StartDecision::Spawn, None)
    }
}

/// Records the process that was started, starts its log rotation worker,
/// and renders the line to log. `recorded` is false, and nothing changes,
/// where a process is managed already.
pub fn finish_backend_spawn(state: &mut BackendState, plan: &LaunchPlan, child_pid: u32) -> (outcome:
    (bool, String))
    ensures
        outcome.0 == old(state).child() is None,
        outcome.1@ == spawned_note(*plan),
        final(state).child() == (if outcome.0 {
            Some(child_pid)
        } else {
            old(state).child()
        }),
        final(state).rotator() == (if outcome.0 {
            Some(child_pid)
        } else {
            old(state).rotator()
        }),
        final(state).same_but_child(old(state)),
{
    let command = build_debug_command(plan);
    let mut line = owned("spawned backend: cmd=");
    line.append(debug_list(&command).as_str());
    line.append(", cwd=");
    line.append(plan.cwd.as_str());
    let recorded = state.record_spawned_child(child_pid, true);
    (recorded, line)
}

} // verus!

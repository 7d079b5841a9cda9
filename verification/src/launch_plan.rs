//! The launch plan: the command that starts the backend, where it runs, and
//! which directories it is told of. A plan comes from a custom command, from
//! a packaged runtime, or from a source checkout.

use vstd::prelude::*;
use vstd::string::StringExecFns;
use crate::notes::{clone_opt, opt_as_str, opt_str_view, opt_view, texts};
use crate::packaged_webui::{
    packaged_webui_dir, packaged_webui_notes, resolve_packaged_webui_dir, WebuiFiles,
};
use crate::paths::{join_path, join_path2, joined_path, joined_path2};
use crate::text::{owned, trim, trim_str};

verus! {

/// The words that a command line splits into by the rules of a POSIX
/// shell, where its quoting is sound.
pub uninterp spec fn shell_words(line: Seq<char>) -> Option<Seq<Seq<char>>>;

/// `shlex::split`: the words of a command line, or nothing where a quote
/// or an escape is left open. The contract gives the result the name
/// `shell_words`.
pub assume_specification[ shlex::split ](in_str: &str) -> (words: Option<Vec<String>>)
    ensures
        match words {
            Some(words) => shell_words(in_str@) == Some(texts(words@)),
            None => shell_words(in_str@) is None,
        },
;

/// How to start the backend.
#[derive(Debug)]
pub struct LaunchPlan {
    pub cmd: String,
    pub args: Vec<String>,
    pub cwd: String,
    pub root_dir: Option<String>,
    pub webui_dir: Option<String>,
    pub packaged_mode: bool,
}

/// What a packaged runtime says of itself.
#[derive(Debug)]
pub struct RuntimeManifest {
    /// The interpreter, relative to the runtime's directory.
    pub python: Option<String>,
    /// The script to launch, relative to the runtime's directory.
    pub entrypoint: Option<String>,
}

/// The values of the variables that a launch plan is made from, each `None`
/// where the variable is unset.
#[derive(Debug)]
pub struct LaunchEnvironment {
    /// The directory to run the backend in.
    pub backend_cwd: Option<String>,
    /// The root directory of the backend's data.
    pub root: Option<String>,
    /// The directory of the web assets.
    pub webui_dir: Option<String>,
}

/// A launch plan as values of the mathematical model.
pub struct LaunchPlanView {
    pub cmd: Seq<char>,
    pub args: Seq<Seq<char>>,
    pub cwd: Seq<char>,
    pub root_dir: Option<Seq<char>>,
    pub webui_dir: Option<Seq<char>>,
    pub packaged_mode: bool,
}

impl View for LaunchPlan {
    type V = LaunchPlanView;

    open spec fn view(&self) -> LaunchPlanView {
        LaunchPlanView {
            cmd: self.cmd@,
            args: texts(self.args@),
            cwd: self.cwd@,
            root_dir: opt_view(self.root_dir),
            webui_dir: opt_view(self.webui_dir),
            packaged_mode: self.packaged_mode,
        }
    }
}

/// The view of a plan or of the error in its place.
pub open spec fn plan_result_view(result: Result<LaunchPlan, String>) -> Result<
    LaunchPlanView,
    Seq<char>,
> {
    match result {
        Ok(plan) => Ok(plan@),
        Err(error) => Err(error@),
    }
}

/// The command of a plan with its arguments, as shown in the log.
pub fn build_debug_command(plan: &LaunchPlan) -> (parts: Vec<String>)
    ensures
        texts(parts@) == seq![plan.cmd@] + texts(plan.args@),
{
    let mut parts: Vec<String> = Vec::new();
    parts.push(plan.cmd.clone());
    let mut i: usize = 0;
    assert(texts(plan.args@).take(0) =~= Seq::<Seq<char>>::empty());
    assert(texts(parts@) =~= seq![plan.cmd@] + texts(plan.args@).take(0));
    while i < plan.args.len()
        invariant
            i <= plan.args.len(),
            texts(parts@) == seq![plan.cmd@] + texts(plan.args@).take(i as int),
        decreases plan.args.len() - i,
    {
        let ghost before = parts@;
        parts.push(plan.args[i].clone());
        proof {
            assert(texts(parts@) =~= texts(before).push(plan.args@[i as int]@));
            assert(texts(plan.args@).take(i + 1) =~= texts(plan.args@).take(i as int).push(
                plan.args@[i as int]@,
            ));
        }
        i += 1;
    }
    assert(texts(plan.args@).take(plan.args.len() as int) =~= texts(plan.args@));
    parts
}

/// The first of three optional values that is there, the last one being
/// there always.
pub open spec fn first_of(first: Option<Seq<char>>, second: Option<Seq<char>>, last: Seq<char>) -> Seq<
    char,
> {
    match first {
        Some(value) => value,
        None => match second {
            Some(value) => value,
            None => last,
        },
    }
}

/// The plan for a custom command: its first word is the program, the others
/// are the arguments. It runs in the directory that the environment names,
/// else in the source checkout, else in the workspace.
pub open spec fn custom_launch(
    custom_cmd: Seq<char>,
    env: LaunchEnvironment,
    source_root: Option<Seq<char>>,
    workspace_root: Seq<char>,
) -> Result<LaunchPlanView, Seq<char>> {
    match shell_words(custom_cmd) {
        None => Err("Invalid ASTRBOT_BACKEND_CMD: "@ + custom_cmd),
        Some(words) => if words.len() == 0 {
            Err("ASTRBOT_BACKEND_CMD is empty."@)
        } else {
            Ok(
                LaunchPlanView {
                    cmd: words[0],
                    args: words.drop_first(),
                    cwd: first_of(opt_view(env.backend_cwd), source_root, workspace_root),
                    root_dir: opt_view(env.root),
                    webui_dir: opt_view(env.webui_dir),
                    packaged_mode: false,
                },
            )
        },
    }
}

/// Makes the plan for a custom command. `source_root` is the source
/// checkout, where one was found.
pub fn resolve_custom_launch(
    custom_cmd: String,
    env: &LaunchEnvironment,
    source_root: Option<String>,
    workspace_root: String,
) -> (plan: Result<LaunchPlan, String>)
    ensures
        plan_result_view(plan) == custom_launch(
            custom_cmd@,
            *env,
            opt_view(source_root),
            workspace_root@,
        ),
{
    let mut pieces = match shlex::split(custom_cmd.as_str()) {
        Some(pieces) => pieces,
        None => {
            let mut message = owned("Invalid ASTRBOT_BACKEND_CMD: ");
            message.append(custom_cmd.as_str());
            return Err(message);
        },
    };
    if pieces.len() == 0 {
        return Err(owned("ASTRBOT_BACKEND_CMD is empty."));
    }
    let ghost words = texts(pieces@);
    let cmd = pieces.remove(0);
    assert(texts(pieces@) =~= words.drop_first());
    let cwd = match &env.backend_cwd {
        Some(cwd) => cwd.clone(),
        None => match source_root {
            Some(root) => root,
            None => workspace_root,
        },
    };
    Ok(
        LaunchPlan {
            cmd,
            args: pieces,
            cwd,
            root_dir: clone_opt(&env.root),
            webui_dir: clone_opt(&env.webui_dir),
            packaged_mode: false,
        },
    )
}

/// The web assets of a source checkout: the directory that the environment
/// names, else `dashboard/dist` in the checkout where its `index.html` is
/// there.
pub open spec fn dev_webui_dir(
    env: LaunchEnvironment,
    source_root: Seq<char>,
    dist_index_is_file: bool,
) -> Option<Seq<char>> {
    match env.webui_dir {
        Some(dir) => Some(dir@),
        None => if dist_index_is_file {
            Some(joined_path2(source_root, "dashboard"@, "dist"@))
        } else {
            None
        },
    }
}

/// The plan for a source checkout: `uv run main.py`, with the web assets
/// where there are any.
pub open spec fn dev_launch(
    source_root: Option<Seq<char>>,
    env: LaunchEnvironment,
    dist_index_is_file: bool,
) -> Result<LaunchPlanView, Seq<char>> {
    match source_root {
        None => Err(
            "Cannot locate AstrBot source directory. Set ASTRBOT_SOURCE_DIR, or configure ASTRBOT_SOURCE_GIT_URL/ASTRBOT_SOURCE_GIT_REF and run resource prepare."@,
        ),
        Some(root) => {
            let webui_dir = dev_webui_dir(env, root, dist_index_is_file);
            Ok(
                LaunchPlanView {
                    cmd: "uv"@,
                    args: match webui_dir {
                        Some(dir) => seq!["run"@, "main.py"@, "--webui-dir"@, dir],
                        None => seq!["run"@, "main.py"@],
                    },
                    cwd: match env.backend_cwd {
                        Some(cwd) => cwd@,
                        None => root,
                    },
                    root_dir: opt_view(env.root),
                    webui_dir,
                    packaged_mode: false,
                },
            )
        },
    }
}

/// Makes the plan for a source checkout. `dist_index_is_file` says whether
/// `dashboard/dist/index.html` in the checkout is a file.
pub fn resolve_dev_launch(
    source_root: Option<String>,
    env: &LaunchEnvironment,
    dist_index_is_file: bool,
) -> (plan: Result<LaunchPlan, String>)
    ensures
        plan_result_view(plan) == dev_launch(opt_view(source_root), *env, dist_index_is_file),
{
    let source_root = match source_root {
        Some(root) => root,
        None => {
            return Err(
                owned(
                    "Cannot locate AstrBot source directory. Set ASTRBOT_SOURCE_DIR, or configure ASTRBOT_SOURCE_GIT_URL/ASTRBOT_SOURCE_GIT_REF and run resource prepare.",
                ),
            );
        },
    };
    let mut args: Vec<String> = Vec::new();
    args.push(owned("run"));
    args.push(owned("main.py"));
    let webui_dir = match &env.webui_dir {
        Some(dir) => Some(dir.clone()),
        None => if dist_index_is_file {
            Some(join_path2(source_root.as_str(), "dashboard", "dist"))
        } else {
            None
        },
    };
    match &webui_dir {
        Some(path) => {
            args.push(owned("--webui-dir"));
            args.push(path.clone());
            assert(texts(args@) =~= seq!["run"@, "main.py"@, "--webui-dir"@, path@]);
        },
        None => {
            assert(texts(args@) =~= seq!["run"@, "main.py"@]);
        },
    }
    let cwd = match &env.backend_cwd {
        Some(cwd) => cwd.clone(),
        None => source_root,
    };
    Ok(
        LaunchPlan {
            cmd: owned("uv"),
            args,
            cwd,
            root_dir: clone_opt(&env.root),
            webui_dir,
            packaged_mode: false,
        },
    )
}

/// The interpreter of a packaged runtime: the one its manifest names, else
/// the one that a Python environment has on the platform, below the
/// runtime's directory.
pub open spec fn packaged_python_path(
    backend_dir: Seq<char>,
    manifest: RuntimeManifest,
    is_windows: bool,
) -> Seq<char> {
    match manifest.python {
        Some(python) => joined_path(backend_dir, python@),
        None => if is_windows {
            joined_path(backend_dir, joined_path2("python"@, "Scripts"@, "python.exe"@))
        } else {
            joined_path(backend_dir, joined_path2("python"@, "bin"@, "python3"@))
        },
    }
}

/// The launch script of a packaged runtime: the one its manifest names,
/// else `launch_backend.py`, below the runtime's directory.
pub open spec fn packaged_script_path(backend_dir: Seq<char>, manifest: RuntimeManifest) -> Seq<char> {
    match manifest.entrypoint {
        Some(entrypoint) => joined_path(backend_dir, entrypoint@),
        None => joined_path(backend_dir, "launch_backend.py"@),
    }
}

/// The two files that a packaged runtime is started with: the interpreter
/// and the launch script.
pub fn packaged_runtime_paths(backend_dir: &str, manifest: &RuntimeManifest, is_windows: bool) -> (paths:
    (String, String))
    ensures
        paths.0@ == packaged_python_path(backend_dir@, *manifest, is_windows),
        paths.1@ == packaged_script_path(backend_dir@, *manifest),
{
    let python = match &manifest.python {
        Some(python) => join_path(backend_dir, python.as_str()),
        None => {
            let relative = if is_windows {
                join_path2("python", "Scripts", "python.exe")
            } else {
                join_path2("python", "bin", "python3")
            };
            join_path(backend_dir, relative.as_str())
        },
    };
    let script = match &manifest.entrypoint {
        Some(entrypoint) => join_path(backend_dir, entrypoint.as_str()),
        None => join_path(backend_dir, "launch_backend.py"),
    };
    (python, script)
}

/// What was found of a packaged runtime on disk.
#[derive(Debug)]
pub struct PackagedRuntime {
    /// The directory that holds the runtime's manifest.
    pub backend_dir: String,
    /// The manifest.
    pub manifest: RuntimeManifest,
    /// The interpreter is a file.
    pub python_is_file: bool,
    /// The launch script is a file.
    pub script_is_file: bool,
    /// The root directory of a packaged installation, where the home
    /// directory is known.
    pub packaged_root_dir: Option<String>,
    /// The directory of the embedded web assets, where the application
    /// carries any.
    pub embedded_webui_dir: Option<String>,
    /// Which `index.html` files are there.
    pub webui_files: WebuiFiles,
}

/// The root directory of a packaged backend: the one that the environment
/// names, else that of the packaged installation.
pub open spec fn packaged_root(env: LaunchEnvironment, runtime: PackagedRuntime) -> Option<Seq<char>> {
    match env.root {
        Some(root) => Some(root@),
        None => opt_view(runtime.packaged_root_dir),
    }
}

/// The directory in which the web assets of a packaged backend are looked
/// for first: the one that the environment names, else the embedded one.
pub open spec fn packaged_embedded_webui(env: LaunchEnvironment, runtime: PackagedRuntime) -> Option<
    Seq<char>,
> {
    match env.webui_dir {
        Some(dir) => Some(dir@),
        None => opt_view(runtime.embedded_webui_dir),
    }
}

/// The plan for a packaged runtime, or the message that says what is
/// missing: the interpreter, the launch script, or the web assets.
pub open spec fn packaged_launch(
    runtime: PackagedRuntime,
    env: LaunchEnvironment,
    locale: Seq<char>,
    is_windows: bool,
) -> Result<LaunchPlanView, Seq<char>> {
    let python = packaged_python_path(runtime.backend_dir@, runtime.manifest, is_windows);
    let script = packaged_script_path(runtime.backend_dir@, runtime.manifest);
    let root_dir = packaged_root(env, runtime);
    if !runtime.python_is_file {
        Err("Packaged runtime python executable is missing: "@ + python)
    } else if !runtime.script_is_file {
        Err("Packaged backend launch script is missing: "@ + script)
    } else {
        match packaged_webui_dir(
            packaged_embedded_webui(env, runtime),
            root_dir,
            opt_view(runtime.packaged_root_dir),
            locale,
            runtime.webui_files,
        ) {
            Err(message) => Err(message),
            Ok(webui_dir) => Ok(
                LaunchPlanView {
                    cmd: python,
                    args: seq![script, "--webui-dir"@, webui_dir],
                    cwd: first_of(opt_view(env.backend_cwd), root_dir, runtime.backend_dir@),
                    root_dir,
                    webui_dir: Some(webui_dir),
                    packaged_mode: true,
                },
            ),
        }
    }
}

/// The lines logged while the plan for a packaged runtime is made.
pub open spec fn packaged_launch_notes(runtime: PackagedRuntime, env: LaunchEnvironment) -> Seq<
    Seq<char>,
> {
    if runtime.python_is_file && runtime.script_is_file {
        packaged_webui_notes(
            packaged_embedded_webui(env, runtime),
            packaged_root(env, runtime),
            opt_view(runtime.packaged_root_dir),
            runtime.webui_files,
        )
    } else {
        Seq::empty()
    }
}

/// Makes the plan for a packaged runtime from what was found of it on
/// disk. The second result holds the lines to log.
pub fn resolve_packaged_launch(
    runtime: &PackagedRuntime,
    env: &LaunchEnvironment,
    locale: &str,
    is_windows: bool,
) -> (outcome: (Result<LaunchPlan, String>, Vec<String>))
    ensures
        plan_result_view(outcome.0) == packaged_launch(*runtime, *env, locale@, is_windows),
        texts(outcome.1@) == packaged_launch_notes(*runtime, *env),
{
    let (python_path, launch_script_path) = packaged_runtime_paths(
        runtime.backend_dir.as_str(),
        &runtime.manifest,
        is_windows,
    );
    if !runtime.python_is_file {
        let mut message = owned("Packaged runtime python executable is missing: ");
        message.append(python_path.as_str());
        let notes: Vec<String> = Vec::new();
        assert(texts(notes@) =~= Seq::<Seq<char>>::empty());
        return (Err(message), notes);
    }
    if !runtime.script_is_file {
        let mut message = owned("Packaged backend launch script is missing: ");
        message.append(launch_script_path.as_str());
        let notes: Vec<String> = Vec::new();
        assert(texts(notes@) =~= Seq::<Seq<char>>::empty());
        return (Err(message), notes);
    }
    let root_dir = match &env.root {
        Some(root) => Some(root.clone()),
        None => clone_opt(&runtime.packaged_root_dir),
    };
    let cwd = match &env.backend_cwd {
        Some(cwd) => cwd.clone(),
        None => match &root_dir {
            Some(root) => root.clone(),
            None => runtime.backend_dir.clone(),
        },
    };
    let embedded_webui_dir = match &env.webui_dir {
        Some(dir) => Some(dir.clone()),
        None => clone_opt(&runtime.embedded_webui_dir),
    };
    let (webui_dir, notes) = resolve_packaged_webui_dir(
        embedded_webui_dir,
        opt_as_str(&root_dir),
        clone_opt(&runtime.packaged_root_dir),
        locale,
        runtime.webui_files,
    );
    let webui_dir = match webui_dir {
        Ok(dir) => dir,
        Err(message) => {
            return (Err(message), notes);
        },
    };
    let mut args: Vec<String> = Vec::new();
    args.push(launch_script_path);
    args.push(owned("--webui-dir"));
    args.push(webui_dir.clone());
    assert(texts(args@) =~= seq![launch_script_path@, "--webui-dir"@, webui_dir@]);
    (
        Ok(
            LaunchPlan {
                cmd: python_path,
                args,
                cwd,
                root_dir,
                webui_dir: Some(webui_dir),
                packaged_mode: true,
            },
        ),
        notes,
    )
}

/// The custom command that the environment asks for: the trimmed text of
/// its variable, where that is not empty.
pub open spec fn custom_command(raw: Option<Seq<char>>) -> Option<Seq<char>> {
    match raw {
        Some(raw) => if trim(raw).len() > 0 {
            Some(trim(raw))
        } else {
            None
        },
        None => None,
    }
}

/// Which kind of plan is made: a custom command comes first, then a
/// packaged runtime, then a source checkout.
#[derive(Debug, Clone, Copy, PartialEq, Eq, Structural)]
pub enum LaunchKind {
    Custom,
    Packaged,
    Dev,
}

/// Decides which kind of plan is made. `custom_cmd` is the text of the
/// command variable; `manifest_is_file` says whether the manifest of a
/// packaged runtime was found.
pub fn resolve_launch_plan(custom_cmd: Option<&str>, manifest_is_file: bool) -> (outcome: (
    LaunchKind,
    Option<String>,
))
    ensures
        outcome.0 == (if custom_command(opt_str_view(custom_cmd)) is Some {
            LaunchKind::Custom
        } else if manifest_is_file {
            LaunchKind::Packaged
        } else {
            LaunchKind::Dev
        }),
        opt_view(outcome.1) == custom_command(opt_str_view(custom_cmd)),
{
    match custom_cmd {
        Some(raw) => {
            let trimmed = trim_str(raw);
            if !trimmed.is_empty() {
                return (LaunchKind::Custom, Some(owned(trimmed)));
            }
        },
        None => {},
    }
    if manifest_is_file {
        (LaunchKind::Packaged, None)
    } else {
        (LaunchKind::Dev, None)
    }
}

} // verus!

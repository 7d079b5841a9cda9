//! The log files: where they lie, how a line is written, and how a file
//! that has grown too large is rotated into numbered backups.

use vstd::prelude::*;
use vstd::string::StringExecFns;
use crate::notes::{opt_str_view, opt_view, texts};
use crate::numbers::{decimal_string, decimal_text};
use crate::paths::{join_path2, join_path3, joined_path2, joined_path3};
use crate::text::{owned, trim, trim_str};

verus! {

/// The size at which the desktop log is rotated.
pub const DESKTOP_LOG_MAX_BYTES: u64 = 5 * 1024 * 1024;

/// The size at which the log of the backend is rotated.
pub const BACKEND_LOG_MAX_BYTES: u64 = 20 * 1024 * 1024;

/// How many backups of a log are kept.
pub const LOG_BACKUP_COUNT: usize = 5;

/// The pause between two looks of the log rotation worker.
pub const BACKEND_LOG_ROTATION_CHECK_INTERVAL_MS: u64 = 20_000;

/// The name of the desktop log.
pub const DESKTOP_LOG_FILE: &'static str = "desktop.log";

/// What a line of the desktop log is about.
#[derive(Debug, Clone, Copy, PartialEq, Eq, Structural)]
pub enum DesktopLogCategory {
    Startup,
    Runtime,
    Restart,
    Shutdown,
}

impl DesktopLogCategory {
    /// The name of the category in a line of the log.
    pub open spec fn label(self) -> Seq<char> {
        match self {
            DesktopLogCategory::Startup => "startup"@,
            DesktopLogCategory::Runtime => "runtime"@,
            DesktopLogCategory::Restart => "restart"@,
            DesktopLogCategory::Shutdown => "shutdown"@,
        }
    }

    /// The name of the category in a line of the log.
    pub fn as_label(self) -> (label: &'static str)
        ensures
            label@ == self.label(),
    {
        match self {
            DesktopLogCategory::Startup => "startup",
            DesktopLogCategory::Runtime => "runtime",
            DesktopLogCategory::Restart => "restart",
            DesktopLogCategory::Shutdown => "shutdown",
        }
    }
}

/// A line of the desktop log: the time and the category in brackets, the
/// message, and a line feed.
pub open spec fn log_line(timestamp: Seq<char>, category: DesktopLogCategory, message: Seq<char>) -> Seq<
    char,
> {
    "["@ + timestamp + "] ["@ + category.label() + "] "@ + message + "\n"@
}

/// Renders a line of the desktop log. `timestamp` is the time of the entry
/// as the log shows it.
pub fn append_desktop_log(timestamp: &str, category: DesktopLogCategory, message: &str) -> (line:
    String)
    ensures
        line@ == log_line(timestamp@, category, message@),
{
    let mut line = owned("[");
    line.append(timestamp);
    line.append("] [");
    line.append(category.as_label());
    line.append("] ");
    line.append(message);
    line.append("\n");
    line
}

/// The directory that a variable names: its text, trimmed, where it is set
/// and not blank.
pub open spec fn named_dir(raw: Option<Seq<char>>) -> Option<Seq<char>> {
    match raw {
        Some(raw) => if trim(raw).len() > 0 {
            Some(trim(raw))
        } else {
            None
        },
        None => None,
    }
}

/// The trimmed text of a variable, where it is set and not blank.
pub fn named_directory(raw: Option<&str>) -> (dir: Option<&str>)
    ensures
        opt_str_view(dir) == named_dir(opt_str_view(raw)),
{
    match raw {
        Some(raw) => {
            let trimmed = trim_str(raw);
            if trimmed.is_empty() {
                None
            } else {
                Some(trimmed)
            }
        },
        None => None,
    }
}

/// Where the desktop log lies: at the path that the environment names;
/// else in `logs` below the root directory that the environment names;
/// else in `logs` below the packaged root; else in `astrbot/logs` below the
/// directory for temporary files.
pub open spec fn desktop_log_path(
    custom_path: Option<Seq<char>>,
    root_env: Option<Seq<char>>,
    packaged_root: Option<Seq<char>>,
    temp_dir: Seq<char>,
    desktop_log_file: Seq<char>,
) -> Seq<char> {
    match named_dir(custom_path) {
        Some(path) => path,
        None => match named_dir(root_env) {
            Some(root) => joined_path2(root, "logs"@, desktop_log_file),
            None => match packaged_root {
                Some(root) => joined_path2(root, "logs"@, desktop_log_file),
                None => joined_path3(temp_dir, "astrbot"@, "logs"@, desktop_log_file),
            },
        },
    }
}

/// Resolves the path of the desktop log. `custom_path` and `root_env` are
/// the texts of the two variables that may name it, `temp_dir` is the
/// directory for temporary files.
pub fn resolve_desktop_log_path(
    custom_path: Option<&str>,
    root_env: Option<&str>,
    packaged_root: Option<String>,
    temp_dir: &str,
    desktop_log_file: &str,
) -> (path: String)
    ensures
        path@ == desktop_log_path(
            opt_str_view(custom_path),
            opt_str_view(root_env),
            opt_view(packaged_root),
            temp_dir@,
            desktop_log_file@,
        ),
{
    match named_directory(custom_path) {
        Some(path) => {
            return owned(path);
        },
        None => {},
    }
    match named_directory(root_env) {
        Some(root) => {
            return join_path2(root, "logs", desktop_log_file);
        },
        None => {},
    }
    match packaged_root {
        Some(root) => join_path2(root.as_str(), "logs", desktop_log_file),
        None => join_path3(temp_dir, "astrbot", "logs", desktop_log_file),
    }
}

/// Where the log of the backend lies: in `logs` below the root directory of
/// the launch plan; else below the one that the environment names; else
/// below the packaged root; else in `astrbot/logs` below the directory for
/// temporary files.
pub open spec fn backend_log_path(
    root_dir: Option<Seq<char>>,
    root_env: Option<Seq<char>>,
    packaged_root: Option<Seq<char>>,
    temp_dir: Seq<char>,
) -> Seq<char> {
    match root_dir {
        Some(root) => joined_path2(root, "logs"@, "backend.log"@),
        None => match named_dir(root_env) {
            Some(root) => joined_path2(root, "logs"@, "backend.log"@),
            None => match packaged_root {
                Some(root) => joined_path2(root, "logs"@, "backend.log"@),
                None => joined_path3(temp_dir, "astrbot"@, "logs"@, "backend.log"@),
            },
        },
    }
}

/// Resolves the path of the backend's log.
pub fn resolve_backend_log_path(
    root_dir: Option<&str>,
    root_env: Option<&str>,
    packaged_root: Option<String>,
    temp_dir: &str,
) -> (path: String)
    ensures
        path@ == backend_log_path(
            opt_str_view(root_dir),
            opt_str_view(root_env),
            opt_view(packaged_root),
            temp_dir@,
        ),
{
    match root_dir {
        Some(root) => {
            return join_path2(root, "logs", "backend.log");
        },
        None => {},
    }
    match named_directory(root_env) {
        Some(root) => {
            return join_path2(root, "logs", "backend.log");
        },
        None => {},
    }
    match packaged_root {
        Some(root) => join_path2(root.as_str(), "logs", "backend.log"),
        None => join_path3(temp_dir, "astrbot", "logs", "backend.log"),
    }
}

/// The path of the backup with the given number: the path of the log, a
/// dot, and the number.
pub open spec fn rotated_path(path: Seq<char>, index: nat) -> Seq<char> {
    path + "."@ + decimal_text(index)
}

/// The path of the backup with the given number.
pub fn rotated_log_path(path: &str, index: usize) -> (rotated: String)
    ensures
        rotated@ == rotated_path(path@, index as nat),
{
    let mut rotated = owned(path);
    rotated.append(".");
    rotated.append(decimal_string(index as u64).as_str());
    rotated
}

/// One step of a rotation.
#[derive(Debug)]
pub enum RotationOp {
    /// Remove the file, where it exists.
    Remove(String),
    /// Where the first file exists: remove the second, where it exists, and
    /// rename the first to the second.
    Shift(String, String),
    /// Rename the first file to the second.
    Rename(String, String),
    /// Copy the first file to the second, then empty the first. This is
    /// the way to rotate a file that a running process keeps open.
    CopyThenTruncate(String, String),
}

/// A step of a rotation as values of the mathematical model.
pub enum RotationStep {
    Remove(Seq<char>),
    Shift(Seq<char>, Seq<char>),
    Rename(Seq<char>, Seq<char>),
    CopyThenTruncate(Seq<char>, Seq<char>),
}

impl View for RotationOp {
    type V = RotationStep;

    open spec fn view(&self) -> RotationStep {
        match self {
            RotationOp::Remove(path) => RotationStep::Remove(path@),
            RotationOp::Shift(from, to) => RotationStep::Shift(from@, to@),
            RotationOp::Rename(from, to) => RotationStep::Rename(from@, to@),
            RotationOp::CopyThenTruncate(from, to) => RotationStep::CopyThenTruncate(from@, to@),
        }
    }
}

/// The steps of a list of operations.
pub open spec fn steps(ops: Seq<RotationOp>) -> Seq<RotationStep> {
    ops.map_values(|op: RotationOp| op@)
}

/// Whether a log is to be rotated: rotation is switched on, with a size
/// limit and at least one backup, and the file exists and has reached the
/// limit. `size` is the size of the file, `None` where there is no file or
/// its size cannot be had.
pub open spec fn rotation_due(size: Option<u64>, max_bytes: u64, backup_count: nat) -> bool {
    max_bytes > 0 && backup_count > 0 && size is Some && size.unwrap() >= max_bytes
}

/// The steps that move the backups `count`, `count - 1`, .., 1 up by one,
/// in this order.
pub open spec fn shift_steps(path: Seq<char>, count: nat) -> Seq<RotationStep>
    decreases count,
{
    if count == 0 {
        Seq::empty()
    } else {
        seq![RotationStep::Shift(rotated_path(path, count), rotated_path(path, count + 1))]
            + shift_steps(path, (count - 1) as nat)
    }
}

/// The last step of a rotation: the log itself becomes backup 1.
pub open spec fn final_rotation_step(path: Seq<char>, copy_and_truncate: bool) -> RotationStep {
    if copy_and_truncate {
        RotationStep::CopyThenTruncate(path, rotated_path(path, 1))
    } else {
        RotationStep::Rename(path, rotated_path(path, 1))
    }
}

/// The steps of a rotation: remove the oldest backup, move every other
/// backup up by one, the older ones first, remove backup 1, and make the
/// log backup 1. No steps where no rotation is due.
pub open spec fn rotation_plan(
    path: Seq<char>,
    size: Option<u64>,
    max_bytes: u64,
    backup_count: nat,
    copy_and_truncate: bool,
) -> Seq<RotationStep> {
    if rotation_due(size, max_bytes, backup_count) {
        seq![RotationStep::Remove(rotated_path(path, backup_count))] + shift_steps(
            path,
            (backup_count - 1) as nat,
        ) + seq![
            RotationStep::Remove(rotated_path(path, 1)),
            final_rotation_step(path, copy_and_truncate),
        ]
    } else {
        Seq::empty()
    }
}

/// Plans the rotation of a log. `size` is the size of the file, `None`
/// where there is no file or its size cannot be had. The caller carries the
/// steps out in order; a step that fails is reported and the next one is
/// taken.
pub fn rotate_log_if_needed(
    path: &str,
    size: Option<u64>,
    max_bytes: u64,
    backup_count: usize,
    copy_and_truncate: bool,
) -> (ops: Vec<RotationOp>)
    ensures
        steps(ops@) == rotation_plan(path@, size, max_bytes, backup_count as nat, copy_and_truncate),
{
    let mut ops: Vec<RotationOp> = Vec::new();
    assert(steps(ops@) =~= Seq::<RotationStep>::empty());
    if max_bytes == 0 || backup_count == 0 {
        return ops;
    }
    match size {
        Some(size) => {
            if size < max_bytes {
                return ops;
            }
        },
        None => {
            return ops;
        },
    }
    ops.push(RotationOp::Remove(rotated_log_path(path, backup_count)));
    let ghost head = seq![RotationStep::Remove(rotated_path(path@, backup_count as nat))];
    assert(steps(ops@) =~= head);
    let mut index: usize = backup_count - 1;
    assert(shift_steps(path@, (backup_count - 1) as nat) =~= Seq::<RotationStep>::empty()
        + shift_steps(path@, index as nat));
    let ghost mut done: Seq<RotationStep> = Seq::empty();
    while index > 0
        invariant
            index < backup_count,
            head == seq![RotationStep::Remove(rotated_path(path@, backup_count as nat))],
            steps(ops@) == head + done,
            shift_steps(path@, (backup_count - 1) as nat) == done + shift_steps(
                path@,
                index as nat,
            ),
        decreases index,
    {
        let from = rotated_log_path(path, index);
        let to = rotated_log_path(path, index + 1);
        let ghost step = RotationStep::Shift(from@, to@);
        let ghost before = ops@;
        ops.push(RotationOp::Shift(from, to));
        proof {
            assert(steps(ops@) =~= steps(before).push(step));
            assert(done + (seq![step] + shift_steps(path@, (index - 1) as nat)) =~= done.push(step)
                + shift_steps(path@, (index - 1) as nat));
            done = done.push(step);
            assert(head + done =~= (head + done.drop_last()).push(step));
        }
        index -= 1;
    }
    proof {
        assert(done + Seq::<RotationStep>::empty() =~= done);
    }
    let rotated = rotated_log_path(path, 1);
    let ghost before_tail = ops@;
    ops.push(RotationOp::Remove(rotated.clone()));
    if copy_and_truncate {
        ops.push(RotationOp::CopyThenTruncate(owned(path), rotated));
    } else {
        ops.push(RotationOp::Rename(owned(path), rotated));
    }
    proof {
        assert(steps(ops@) =~= steps(before_tail) + seq![
            RotationStep::Remove(rotated_path(path@, 1)),
            final_rotation_step(path@, copy_and_truncate),
        ]);
    }
    ops
}

/// The steps that move the backups up are as many as there are backups to
/// move, and the step with number `k` moves backup `count - k` to the
/// place above it.
pub proof fn lemma_shift_steps(path: Seq<char>, count: nat, k: int)
    requires
        0 <= k < count,
    ensures
        shift_steps(path, count).len() == count,
        shift_steps(path, count)[k] == RotationStep::Shift(
            rotated_path(path, (count - k) as nat),
            rotated_path(path, (count - k + 1) as nat),
        ),
    decreases count,
{
    lemma_shift_steps_len(path, (count - 1) as nat);
    if k > 0 {
        lemma_shift_steps(path, (count - 1) as nat, k - 1);
    }
}

/// There is one step for each backup to move.
pub proof fn lemma_shift_steps_len(path: Seq<char>, count: nat)
    ensures
        shift_steps(path, count).len() == count,
    decreases count,
{
    if count > 0 {
        lemma_shift_steps_len(path, (count - 1) as nat);
    }
}

/// A rotation is skipped, without any step, exactly where it is switched
/// off, the file is missing, or the file is below the limit. Where it is
/// due it takes `backup_count + 2` steps: it begins by removing the oldest
/// backup and ends by making the log backup 1; each step between moves one
/// backup into the place that the step before has just freed, so that no
/// backup is written over and none gets a number above `backup_count`.
pub proof fn lemma_rotation_plan_shape(
    path: Seq<char>,
    size: Option<u64>,
    max_bytes: u64,
    backup_count: nat,
    copy_and_truncate: bool,
    k: int,
)
    ensures
        rotation_plan(path, size, max_bytes, backup_count, copy_and_truncate).len() == 0
            <==> !rotation_due(size, max_bytes, backup_count),
        max_bytes == 0 || backup_count == 0 || size is None ==> rotation_plan(
            path,
            size,
            max_bytes,
            backup_count,
            copy_and_truncate,
        ).len() == 0,
        rotation_due(size, max_bytes, backup_count) ==> {
            let plan = rotation_plan(path, size, max_bytes, backup_count, copy_and_truncate);
            &&& plan.len() == backup_count + 2
            &&& plan[0] == RotationStep::Remove(rotated_path(path, backup_count))
            &&& plan[backup_count as int] == RotationStep::Remove(rotated_path(path, 1))
            &&& plan[backup_count as int + 1] == final_rotation_step(path, copy_and_truncate)
            &&& 1 <= k < backup_count ==> plan[k] == RotationStep::Shift(
                rotated_path(path, (backup_count - k) as nat),
                rotated_path(path, (backup_count - k + 1) as nat),
            )
        },
{
    if rotation_due(size, max_bytes, backup_count) {
        lemma_shift_steps_len(path, (backup_count - 1) as nat);
        if 1 <= k < backup_count {
            lemma_shift_steps(path, (backup_count - 1) as nat, k - 1);
        }
    }
}

} // verus!

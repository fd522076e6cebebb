//! Bootstrap (provisioning) command data and skip rules.
//!
//! Running the configured bootstrap command is outside work; the data that
//! describes it, the skip-marker path resolution and the shape of its
//! result live here.

use vstd::prelude::*;

use crate::text::{clone_strings, spec_starts_with, starts_with_chars, strings_view, to_chars};
use crate::config::clone_string;

verus! {

/// Specification for running a bootstrap script: the command line, its
/// working directory, and marker files whose presence skips the run.
#[derive(Debug, Clone)]
pub struct BootstrapSpec {
    pub command: Vec<String>,
    pub working_dir: String,
    pub skip_files: Vec<String>,
}

impl BootstrapSpec {
    pub fn new(command: Vec<String>, working_dir: String, skip_files: Vec<String>) -> (r: Self)
        ensures
            r.command == command,
            r.working_dir == working_dir,
            r.skip_files == skip_files,
    {
        Self { command, working_dir, skip_files }
    }
}

/// Executes a configured bootstrap command, respecting skip markers.  The
/// command itself runs outside the verified core, against this data.
#[derive(Debug, Clone)]
pub struct BootstrapRunner {
    pub root: String,
    pub spec: BootstrapSpec,
}

impl BootstrapRunner {
    pub fn new(root: String, spec: BootstrapSpec) -> (r: Self)
        ensures
            r.root == root,
            r.spec == spec,
    {
        Self { root, spec }
    }
}

/// A marker path resolved against the workspace root: absolute markers are
/// kept, relative ones are joined onto the root.
pub open spec fn spec_marker_path(root: Seq<char>, marker: Seq<char>) -> Seq<char> {
    if spec_starts_with(marker, "/"@) {
        marker
    } else {
        root + "/"@ + marker
    }
}

/// Resolve a skip-marker path against the workspace root.
pub fn marker_path(root: &str, marker: &str) -> (r: String)
    ensures
        r@ == spec_marker_path(root@, marker@),
{
    let marker_chars = to_chars(marker);
    let slash = to_chars("/");
    if starts_with_chars(&marker_chars, &slash) {
        let mut path = String::new();
        path.append(marker);
        proof {
            assert(Seq::<char>::empty() + marker@ =~= marker@);
        }
        path
    } else {
        let mut path = String::new();
        path.append(root);
        proof {
            assert(Seq::<char>::empty() + root@ =~= root@);
        }
        path.append("/");
        path.append(marker);
        path
    }
}

/// The skip reason recorded when a marker file is present.
pub open spec fn spec_skip_reason(path: Seq<char>) -> Seq<char> {
    "skip marker present at "@ + path
}

/// Format the reason for skipping because of the given marker path.
pub fn skip_reason_for(path: &str) -> (r: String)
    ensures
        r@ == spec_skip_reason(path@),
{
    let mut reason = String::from_str("skip marker present at ");
    reason.append(path);
    reason
}

/// Completion details from running a bootstrap command.  Times are
/// milliseconds: the start instant since the epoch, and the duration.
#[derive(Debug, Clone)]
pub struct BootstrapResult {
    pub command: Vec<String>,
    pub working_dir: String,
    pub skipped: bool,
    pub skip_reason: Option<String>,
    pub exit_code: Option<i32>,
    pub stdout: String,
    pub stderr: String,
    pub started_at_ms: u64,
    pub duration_ms: u64,
}

impl BootstrapResult {
    /// The record of a run skipped for the given reason: nothing was
    /// executed, so there is no exit code, no output and no duration.
    pub fn skipped(command: Vec<String>, working_dir: String, reason: String, started_at_ms: u64) -> (r:
        Self)
        ensures
            r.command == command,
            r.working_dir == working_dir,
            r.skipped == true,
            r.skip_reason matches Some(s) && s == reason,
            r.exit_code is None,
            r.stdout@.len() == 0,
            r.stderr@.len() == 0,
            r.started_at_ms == started_at_ms,
            r.duration_ms == 0,
    {
        Self {
            command,
            working_dir,
            skipped: true,
            skip_reason: Some(reason),
            exit_code: None,
            stdout: String::new(),
            stderr: String::new(),
            started_at_ms,
            duration_ms: 0,
        }
    }
}

/// Split a bootstrap command list into its program and arguments; an empty
/// list is rejected.
pub fn split_command(command: &Vec<String>) -> (r: Result<(String, Vec<String>), BootstrapError>)
    ensures
        match r {
            Ok((program, args)) => {
                &&& command@.len() > 0
                &&& program@ == command@[0]@
                &&& strings_view(args@) == strings_view(command@).drop_first()
            },
            Err(e) => {
                &&& command@.len() == 0
                &&& e matches BootstrapError::InvalidCommand(m) && m@
                    == "bootstrap command cannot be empty"@
            },
        },
{
    if command.len() == 0 {
        return Err(
            BootstrapError::InvalidCommand(String::from_str("bootstrap command cannot be empty")),
        );
    }
    let program = clone_string(&command[0]);
    let mut copied = clone_strings(command);
    proof {
        assert(strings_view(copied@).len() == strings_view(command@).len());
    }
    let _head = copied.remove(0);
    proof {
        assert(strings_view(command@)[0] == command@[0]@);
        assert(strings_view(copied@) =~= strings_view(command@).drop_first());
    }
    Ok((program, copied))
}

/// Bootstrap execution failures.
#[derive(Debug)]
pub enum BootstrapError {
    InvalidCommand(String),
    SpawnFailed { program: String, message: String },
    CommandFailed { result: BootstrapResult, code: Option<i32> },
}

} // verus!

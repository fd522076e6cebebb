//! Core step types shared across the orchestrator and agents.

use vstd::prelude::*;

use crate::text::{spec_sorted, sort_strings, strings_view, replace_chars, to_chars, from_chars, spec_replace};
use crate::vcs::{Vcs, VcsError};

verus! {

/// Roles participating in the red-green-refactor loop.
#[derive(Debug, Clone, Copy, PartialEq, Eq, Structural)]
pub enum Role {
    Tester,
    Implementor,
    Refactorer,
}

/// The identifier used in logs, plan files and prompts.
pub open spec fn spec_role_str(role: Role) -> Seq<char> {
    match role {
        Role::Tester => "tester"@,
        Role::Implementor => "implementor"@,
        Role::Refactorer => "refactorer"@,
    }
}

/// The successor in the fixed tester, implementor, refactorer rotation.
pub open spec fn spec_role_next(role: Role) -> Role {
    match role {
        Role::Tester => Role::Implementor,
        Role::Implementor => Role::Refactorer,
        Role::Refactorer => Role::Tester,
    }
}

impl Role {
    /// Human-friendly identifier used in logs, plan files, and prompts.
    pub fn as_str(self) -> (r: &'static str)
        ensures
            r@ == spec_role_str(self),
    {
        match self {
            Role::Tester => "tester",
            Role::Implementor => "implementor",
            Role::Refactorer => "refactorer",
        }
    }

    /// Determine the next role in the fixed cycle.
    pub fn next(self) -> (r: Role)
        ensures
            r == spec_role_next(self),
    {
        match self {
            Role::Tester => Role::Implementor,
            Role::Implementor => Role::Refactorer,
            Role::Refactorer => Role::Tester,
        }
    }
}

/// The rotation returns to its start after one full round of three steps.
pub proof fn lemma_role_cycle_period(role: Role)
    ensures
        spec_role_next(spec_role_next(spec_role_next(role))) == role,
{
}

/// Snapshot of repository context shared with agents before each step.
#[derive(Debug, Clone)]
pub struct StepContext {
    pub role: Role,
    pub step_index: u32,
    pub kata_description: String,
    pub git_last_commit_msg: String,
    pub git_last_diff: String,
    pub repo_snapshot_paths: Vec<String>,
}

impl StepContext {
    /// Convenience constructor primarily used by tests.
    pub fn new(
        role: Role,
        step_index: u32,
        kata_description: String,
        git_last_commit_msg: String,
        git_last_diff: String,
        repo_snapshot_paths: Vec<String>,
    ) -> (r: Self)
        ensures
            r.role == role,
            r.step_index == step_index,
            r.kata_description == kata_description,
            r.git_last_commit_msg == git_last_commit_msg,
            r.git_last_diff == git_last_diff,
            r.repo_snapshot_paths == repo_snapshot_paths,
    {
        Self { role, step_index, kata_description, git_last_commit_msg, git_last_diff, repo_snapshot_paths }
    }
}

/// Result of applying an agent plan to the filesystem.
#[derive(Debug, Clone)]
pub struct StepResult {
    pub files_changed: Vec<String>,
    pub commit_message: String,
    pub notes: String,
}

impl StepResult {
    /// A result for situations where an agent produced no edits but the
    /// orchestrator must advance.
    pub fn empty(commit_message: String) -> (r: Self)
        ensures
            r.files_changed@.len() == 0,
            r.commit_message == commit_message,
            r.notes@.len() == 0,
    {
        Self { files_changed: Vec::new(), commit_message, notes: String::new() }
    }
}

/// Errors emitted while gathering context for an agent.
#[derive(Debug)]
pub enum StepContextError {
    ReadKata { path: String, message: String },
    Fs { message: String },
    Vcs { error: VcsError },
}

/// Read access to the workspace needed when assembling a step context: the
/// kata description text and a listing of workspace-relative file paths.
/// Implementations live outside the verified core.
pub trait WorkspaceReader {
    fn read_kata(&self) -> Result<String, StepContextError>;

    fn list_files(&self) -> Result<Vec<String>, StepContextError>;
}

/// The listed paths with platform separators normalized and sorted
/// lexicographically, for a deterministic context.
pub fn normalized_sorted_paths(files: Vec<String>) -> (r: Vec<String>)
    ensures
        spec_sorted(strings_view(r@)),
        strings_view(r@).to_multiset() == strings_view(files@).map_values(
            |p: Seq<char>| spec_replace(p, '\\', '/'),
        ).to_multiset(),
{
    let mut normalized: Vec<String> = Vec::new();
    let mut i: usize = 0;
    while i < files.len()
        invariant
            i <= files@.len(),
            strings_view(normalized@) == strings_view(files@).map_values(
                |p: Seq<char>| spec_replace(p, '\\', '/'),
            ).subrange(0, i as int),
        decreases files@.len() - i,
    {
        let chars = to_chars(files[i].as_str());
        let replaced = replace_chars(&chars, '\\', '/');
        let s = from_chars(&replaced);
        proof {
            let full = strings_view(files@).map_values(|p: Seq<char>| spec_replace(p, '\\', '/'));
            assert(full[i as int] == spec_replace(files@[i as int]@, '\\', '/'));
            assert(strings_view(normalized@.push(s)) =~= strings_view(normalized@).push(s@));
            assert(full.subrange(0, i + 1) =~= full.subrange(0, i as int).push(full[i as int]));
        }
        normalized.push(s);
        i = i + 1;
    }
    proof {
        let full = strings_view(files@).map_values(|p: Seq<char>| spec_replace(p, '\\', '/'));
        assert(full.subrange(0, full.len() as int) =~= full);
    }
    sort_strings(normalized)
}

/// A recorded history value, or the empty string when there is none: the
/// last-commit fields are never absent, so callers handle "no history"
/// uniformly.
pub fn history_or_empty(value: Option<String>) -> (r: String)
    ensures
        match value {
            Some(s) => r == s,
            None => r@.len() == 0,
        },
{
    match value {
        Some(s) => s,
        None => String::new(),
    }
}

/// Assembles the [`StepContext`] from workspace metadata.
///
/// The version-control state and the workspace listing come from the two
/// collaborators; the verified part normalizes and sorts the listing and
/// fills the last-commit fields with empty strings when there is no history.
pub struct StepContextBuilder<'a, V: Vcs, W: WorkspaceReader> {
    pub vcs: &'a V,
    pub workspace: &'a W,
}

impl<'a, V: Vcs, W: WorkspaceReader> StepContextBuilder<'a, V, W> {
    /// Construct a new builder over the given collaborators.
    pub fn new(vcs: &'a V, workspace: &'a W) -> (r: Self)
        ensures
            r.vcs == vcs,
            r.workspace == workspace,
    {
        Self { vcs, workspace }
    }

    /// Build the context for `role` and `step_index`.
    pub fn build(&self, role: Role, step_index: u32) -> (r: Result<
        StepContext,
        StepContextError,
    >)
        ensures
            match r {
                Ok(ctx) => {
                    &&& ctx.role == role
                    &&& ctx.step_index == step_index
                    &&& spec_sorted(strings_view(ctx.repo_snapshot_paths@))
                },
                Err(_) => true,
            },
    {
        let repo_state = match self.vcs.state() {
            Ok(state) => state,
            Err(error) => {
                return Err(StepContextError::Vcs { error });
            },
        };
        let kata_description = match self.workspace.read_kata() {
            Ok(text) => text,
            Err(e) => {
                return Err(e);
            },
        };
        let files = match self.workspace.list_files() {
            Ok(files) => files,
            Err(e) => {
                return Err(e);
            },
        };
        let repo_snapshot_paths = normalized_sorted_paths(files);
        let git_last_commit_msg = history_or_empty(repo_state.last_commit_message);
        let git_last_diff = history_or_empty(repo_state.last_commit_diff);
        Ok(StepContext {
            role,
            step_index,
            kata_description,
            git_last_commit_msg,
            git_last_diff,
            repo_snapshot_paths,
        })
    }
}

} // verus!

//! Version-control collaborator contract.
//!
//! The orchestrator only depends on this observable interface; the git
//! implementation lives outside the verified core.

use vstd::prelude::*;

verus! {

/// High-level summary of the repository state.
#[derive(Debug, Clone)]
pub struct RepoState {
    pub head_commit: Option<String>,
    pub last_commit_message: Option<String>,
    pub last_commit_diff: Option<String>,
    pub is_clean: bool,
}

/// Minimal author information required for commits.
#[derive(Debug, Clone)]
pub struct CommitSignature {
    pub name: String,
    pub email: String,
}

impl CommitSignature {
    pub fn new(name: String, email: String) -> (r: Self)
        ensures
            r.name == name,
            r.email == email,
    {
        Self { name, email }
    }
}

/// Errors reported by a version-control backend.
#[derive(Debug, Clone)]
pub enum VcsError {
    Git { message: String },
    Io { message: String },
}

/// Behavior expected from any version-control wrapper.
pub trait Vcs {
    fn ensure_initialized(&self) -> Result<(), VcsError>;

    fn state(&self) -> Result<RepoState, VcsError>;

    fn stage_all(&self) -> Result<(), VcsError>;

    fn commit(&self, message: &str, author: &CommitSignature) -> Result<String, VcsError>;
}

} // verus!

//! Orchestration core of an automated red-green-refactor loop.
//!
//! Three agents (tester, implementor, refactorer) take turns proposing file
//! edits to a workspace.  This crate holds the verified logic of that loop:
//! the fixed role rotation, the edit-plan parser with its path-safety checks,
//! the per-role scope policy, the commit-message formatter, the step context
//! assembly and the retry/commit protocol of the orchestrator.  Process
//! execution, git plumbing and network clients stay outside, behind traits.

pub mod bootstrap;
pub mod commit_policy;
pub mod config;
pub mod doctor;
pub mod edit_plan;
pub mod executor;
pub mod init;
pub mod logging;
pub mod orchestrator;
pub mod runner;
pub mod scope;
pub mod status;
pub mod step;
pub mod support;
pub mod text;
pub mod vcs;

use vstd::prelude::*;

verus! {

} // verus!

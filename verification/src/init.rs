//! Workspace initialization results.
//!
//! Initializing a workspace creates files, directories and a repository —
//! all outside work.  The records of what was done, and of whether a
//! bootstrap ran, live here.

use vstd::prelude::*;

use crate::logging::BootstrapLogPaths;

verus! {

/// What initializing the workspace did.
#[derive(Debug)]
pub struct InitResult {
    pub workspace_exists: bool,
    pub config_created: bool,
    pub kata_created: bool,
    pub directories_created: bool,
    pub git_initialized: bool,
    pub bootstrap: Option<BootstrapSummary>,
}

/// Whether and how the bootstrap hook ran.
#[derive(Debug, Clone)]
pub struct BootstrapSummary {
    pub configured: bool,
    pub skipped: bool,
    pub log_file: Option<String>,
    pub state_file: Option<String>,
}

impl BootstrapSummary {
    /// No bootstrap hook is configured: nothing ran and nothing was
    /// written.
    pub fn not_configured() -> (r: Self)
        ensures
            r.configured == false,
            r.skipped == true,
            r.log_file is None,
            r.state_file is None,
    {
        Self { configured: false, skipped: true, log_file: None, state_file: None }
    }

    /// A configured bootstrap ran (or was skipped) and its telemetry was
    /// persisted at the given paths.
    pub fn from_paths(skipped: bool, paths: BootstrapLogPaths) -> (r: Self)
        ensures
            r.configured == true,
            r.skipped == skipped,
            r.log_file matches Some(p) && p == paths.log_file,
            r.state_file matches Some(p) && p == paths.state_file,
    {
        Self {
            configured: true,
            skipped,
            log_file: Some(paths.log_file),
            state_file: Some(paths.state_file),
        }
    }
}

} // verus!

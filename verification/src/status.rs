//! Automation status reporting.
//!
//! The status report says which role acts next, whether the workspace is
//! clean, and what the last commit and last logged step were.  Gathering the
//! inputs reads the repository and the log directory outside the verified
//! core; assembling and rendering the report is verified.

use vstd::prelude::*;

use crate::logging::StepLogEntry;
use crate::step::{spec_role_next, spec_role_str, Role};
use crate::text::{dec_i32, dec_u32, from_chars, spec_dec, spec_dec_signed, strings_view};
use crate::vcs::RepoState;

verus! {

/// What the status command reports.
#[derive(Debug, Clone)]
pub struct StatusReport {
    pub next_role: Role,
    pub next_step: u32,
    pub max_steps: u32,
    pub repo_clean: bool,
    pub last_commit_id: Option<String>,
    pub last_commit_message: Option<String>,
    pub last_log: Option<StepLogEntry>,
}

pub open spec fn spec_yes_no(v: bool) -> Seq<char> {
    if v {
        "yes"@
    } else {
        "no"@
    }
}

/// The rendered report lines.
pub open spec fn spec_status_lines(r: StatusReport) -> Seq<Seq<char>> {
    let head = "Next role: "@ + spec_role_str(r.next_role) + " (step "@ + spec_dec(
        r.next_step as nat,
    ) + " of "@ + spec_dec(r.max_steps as nat) + ")"@;
    let clean = "Workspace clean: "@ + spec_yes_no(r.repo_clean);
    let commit = match (r.last_commit_message, r.last_commit_id) {
        (Some(message), Some(id)) => "Last commit: "@ + message@ + " ("@ + id@ + ")"@,
        (Some(message), None) => "Last commit: "@ + message@,
        (None, Some(id)) => "Last commit id: "@ + id@,
        (None, None) => "Last commit: none"@,
    };
    let tail = match r.last_log {
        Some(log) => seq![
            "Last step: "@ + spec_role_str(log.role) + " #"@ + spec_dec(log.step_index as nat)
                + ", plan "@ + log.plan_path@,
            "CI exit codes: fmt="@ + spec_dec_signed(log.runner.fmt.code as int) + ", check="@
                + spec_dec_signed(log.runner.check.code as int) + ", test="@ + spec_dec_signed(
                log.runner.test.code as int,
            ),
        ],
        None => seq!["No step logs found."@],
    };
    seq![head, clean, commit] + tail
}

impl StatusReport {
    /// Render the report, one line per entry.
    pub fn format_lines(&self) -> (r: Vec<String>)
        ensures
            strings_view(r@) == spec_status_lines(*self),
    {
        let mut lines: Vec<String> = Vec::new();
        let mut head = String::from_str("Next role: ");
        head.append(self.next_role.as_str());
        head.append(" (step ");
        let step_chars = dec_u32(self.next_step);
        let step_text = from_chars(&step_chars);
        head.append(step_text.as_str());
        head.append(" of ");
        let max_chars = dec_u32(self.max_steps);
        let max_text = from_chars(&max_chars);
        head.append(max_text.as_str());
        head.append(")");
        lines.push(head);
        let mut clean = String::from_str("Workspace clean: ");
        if self.repo_clean {
            clean.append("yes");
        } else {
            clean.append("no");
        }
        lines.push(clean);
        let commit = match (&self.last_commit_message, &self.last_commit_id) {
            (Some(message), Some(id)) => {
                let mut line = String::from_str("Last commit: ");
                line.append(message.as_str());
                line.append(" (");
                line.append(id.as_str());
                line.append(")");
                line
            },
            (Some(message), None) => {
                let mut line = String::from_str("Last commit: ");
                line.append(message.as_str());
                line
            },
            (None, Some(id)) => {
                let mut line = String::from_str("Last commit id: ");
                line.append(id.as_str());
                line
            },
            (None, None) => String::from_str("Last commit: none"),
        };
        lines.push(commit);
        match &self.last_log {
            Some(log) => {
                let mut step_line = String::from_str("Last step: ");
                step_line.append(log.role.as_str());
                step_line.append(" #");
                let index_chars = dec_u32(log.step_index);
                let index_text = from_chars(&index_chars);
                step_line.append(index_text.as_str());
                step_line.append(", plan ");
                step_line.append(log.plan_path.as_str());
                lines.push(step_line);
                let mut ci_line = String::from_str("CI exit codes: fmt=");
                let fmt_chars = dec_i32(log.runner.fmt.code);
                let fmt_text = from_chars(&fmt_chars);
                ci_line.append(fmt_text.as_str());
                ci_line.append(", check=");
                let check_chars = dec_i32(log.runner.check.code);
                let check_text = from_chars(&check_chars);
                ci_line.append(check_text.as_str());
                ci_line.append(", test=");
                let test_chars = dec_i32(log.runner.test.code);
                let test_text = from_chars(&test_chars);
                ci_line.append(test_text.as_str());
                lines.push(ci_line);
            },
            None => {
                lines.push(String::from_str("No step logs found."));
            },
        }
        proof {
            assert(strings_view(lines@) =~= spec_status_lines(*self));
        }
        lines
    }
}

/// Assemble the status report from the repository state, the configured
/// step ceiling and the most recent step log: the next role and step follow
/// the log when present, else the cycle starts fresh; the last commit is
/// taken from the log when present, else from the repository.
pub fn build_report(max_steps: u32, repo_state: RepoState, last_log: Option<StepLogEntry>) -> (r:
    StatusReport)
    requires
        match last_log {
            Some(log) => log.step_index < u32::MAX,
            None => true,
        },
    ensures
        r.max_steps == max_steps,
        r.repo_clean == repo_state.is_clean,
        match last_log {
            Some(log) => {
                &&& r.next_role == spec_role_next(log.role)
                &&& r.next_step == log.step_index + 1
                &&& r.last_commit_id matches Some(id) && id@ == log.commit_id@
                &&& r.last_commit_message matches Some(m) && m@ == log.commit_message@
                &&& r.last_log is Some
            },
            None => {
                &&& r.next_role == Role::Tester
                &&& r.next_step == 1
                &&& r.last_commit_id == repo_state.head_commit
                &&& r.last_commit_message == repo_state.last_commit_message
                &&& r.last_log is None
            },
        },
{
    match last_log {
        Some(log) => {
            let next_role = log.role.next();
            let next_step = log.step_index + 1;
            let last_commit_id = Some(crate::config::clone_string(&log.commit_id));
            let last_commit_message = Some(crate::config::clone_string(&log.commit_message));
            StatusReport {
                next_role,
                next_step,
                max_steps,
                repo_clean: repo_state.is_clean,
                last_commit_id,
                last_commit_message,
                last_log: Some(log),
            }
        },
        None => StatusReport {
            next_role: Role::Tester,
            next_step: 1,
            max_steps,
            repo_clean: repo_state.is_clean,
            last_commit_id: repo_state.head_commit,
            last_commit_message: repo_state.last_commit_message,
            last_log: None,
        },
    }
}

} // verus!

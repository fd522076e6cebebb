//! Per-step and bootstrap log records, and the resume-from-history rules.
//!
//! Log entries are plain records of what a step or bootstrap run did; the
//! file names they are stored under encode the step index and role, and the
//! highest-numbered record determines where a restarted process resumes.
//! Reading and writing the files happens outside the verified core.

use vstd::prelude::*;

use crate::bootstrap::BootstrapResult;
use crate::commit_policy::RunnerOutcomeSummary;
use crate::config::clone_string;
use crate::runner::RunOutcome;
use crate::step::{Role, spec_role_str};
use crate::text::{
    clone_strings, dec_u64, find_char, from_chars, parse_u32_chars, spec_dec, spec_ends_with,
    spec_find_char, spec_pad3, spec_parse_u32, spec_starts_with, dec_u32, pad3_chars,
    starts_with_chars, ends_with_chars, strings_view, sub_chars, chars_eq, to_chars,
};

verus! {

/// Snapshot of a completed step.
#[derive(Debug, Clone)]
pub struct StepLogEntry {
    pub step_index: u32,
    pub role: Role,
    pub plan_path: String,
    pub files_changed: Vec<String>,
    pub commit_id: String,
    pub commit_message: String,
    pub notes: String,
    pub provider: String,
    pub runner: RunnerLog,
}

impl StepLogEntry {
    pub fn new(
        step_index: u32,
        role: Role,
        plan_path: String,
        files_changed: Vec<String>,
        commit_id: String,
        commit_message: String,
        notes: String,
        provider: String,
        runner: RunnerLog,
    ) -> (r: Self)
        ensures
            r.step_index == step_index,
            r.role == role,
            r.plan_path == plan_path,
            r.files_changed == files_changed,
            r.commit_id == commit_id,
            r.commit_message == commit_message,
            r.notes == notes,
            r.provider == provider,
            r.runner == runner,
    {
        Self {
            step_index,
            role,
            plan_path,
            files_changed,
            commit_id,
            commit_message,
            notes,
            provider,
            runner,
        }
    }
}

/// Single command execution result inside a log entry.
#[derive(Debug, Clone, PartialEq, Eq)]
pub struct CommandLog {
    pub code: i32,
    pub stdout: String,
    pub stderr: String,
}

impl CommandLog {
    /// A log record of one command outcome.
    pub fn from_outcome(outcome: &RunOutcome) -> (r: Self)
        ensures
            r.code == outcome.code,
            r.stdout@ == outcome.stdout@,
            r.stderr@ == outcome.stderr@,
    {
        Self {
            code: outcome.code,
            stdout: clone_string(&outcome.stdout),
            stderr: clone_string(&outcome.stderr),
        }
    }
}

/// Verification outcome summary stored inside a [`StepLogEntry`].
#[derive(Debug, Clone, PartialEq, Eq)]
pub struct RunnerLog {
    pub fmt: CommandLog,
    pub check: CommandLog,
    pub test: CommandLog,
}

impl RunnerLog {
    pub fn from_summary(summary: &RunnerOutcomeSummary) -> (r: Self)
        ensures
            r.fmt.code == summary.fmt.code && r.fmt.stdout@ == summary.fmt.stdout@
                && r.fmt.stderr@ == summary.fmt.stderr@,
            r.check.code == summary.check.code && r.check.stdout@ == summary.check.stdout@
                && r.check.stderr@ == summary.check.stderr@,
            r.test.code == summary.test.code && r.test.stdout@ == summary.test.stdout@
                && r.test.stderr@ == summary.test.stderr@,
    {
        Self {
            fmt: CommandLog::from_outcome(&summary.fmt),
            check: CommandLog::from_outcome(&summary.check),
            test: CommandLog::from_outcome(&summary.test),
        }
    }
}

/// Telemetry emitted after running a bootstrap command.
#[derive(Debug, Clone)]
pub struct BootstrapLogEntry {
    pub command: Vec<String>,
    pub working_dir: String,
    pub skipped: bool,
    pub skip_reason: Option<String>,
    pub exit_code: Option<i32>,
    pub stdout: String,
    pub stderr: String,
    pub started_at_ms: u64,
    pub duration_ms: u64,
}

impl BootstrapLogEntry {
    /// Convert an execution result into a persistable log entry.
    pub fn from_result(result: &BootstrapResult) -> (r: Self)
        ensures
            strings_view(r.command@) == strings_view(result.command@),
            r.working_dir@ == result.working_dir@,
            r.skipped == result.skipped,
            match (&r.skip_reason, &result.skip_reason) {
                (Some(a), Some(b)) => a@ == b@,
                (None, None) => true,
                _ => false,
            },
            r.exit_code == result.exit_code,
            r.stdout@ == result.stdout@,
            r.stderr@ == result.stderr@,
            r.started_at_ms == result.started_at_ms,
            r.duration_ms == result.duration_ms,
    {
        let skip_reason = match &result.skip_reason {
            Some(reason) => Some(clone_string(reason)),
            None => None,
        };
        Self {
            command: clone_strings(&result.command),
            working_dir: clone_string(&result.working_dir),
            skipped: result.skipped,
            skip_reason,
            exit_code: result.exit_code,
            stdout: clone_string(&result.stdout),
            stderr: clone_string(&result.stderr),
            started_at_ms: result.started_at_ms,
            duration_ms: result.duration_ms,
        }
    }
}

/// Paths produced when persisting bootstrap logs.
#[derive(Debug, Clone, PartialEq, Eq)]
pub struct BootstrapLogPaths {
    pub log_file: String,
    pub state_file: String,
}

/// Locations for bootstrap telemetry: a timestamped log file under the log
/// directory and one fixed state file.  Writing happens outside the
/// verified core, at the paths computed here.
#[derive(Debug, Clone)]
pub struct BootstrapLogger {
    pub root: String,
    pub log_dir: String,
    pub state_file: String,
}

impl BootstrapLogger {
    pub fn new(root: String, log_dir: String, state_file: String) -> (r: Self)
        ensures
            r.root == root,
            r.log_dir == log_dir,
            r.state_file == state_file,
    {
        Self { root, log_dir, state_file }
    }

    /// The log-file path for an entry, named by its start time.
    pub fn log_file_path(&self, entry: &BootstrapLogEntry) -> (r: String)
        ensures
            r@ == self.root@ + "/"@ + self.log_dir@ + "/"@ + "bootstrap-"@ + spec_dec(
                entry.started_at_ms as nat,
            ) + ".json"@,
    {
        let mut path = clone_string(&self.root);
        path.append("/");
        path.append(self.log_dir.as_str());
        path.append("/");
        path.append("bootstrap-");
        let ms = dec_u64(entry.started_at_ms);
        let ms_text = from_chars(&ms);
        path.append(ms_text.as_str());
        path.append(".json");
        path
    }

    /// The state-file path.
    pub fn state_file_path(&self) -> (r: String)
        ensures
            r@ == self.root@ + "/"@ + self.state_file@,
    {
        let mut path = clone_string(&self.root);
        path.append("/");
        path.append(self.state_file.as_str());
        path
    }
}

/// Locations for step log entries.  Writing happens outside the verified
/// core, at the paths computed here.
#[derive(Debug, Clone)]
pub struct StepLogger {
    pub root: String,
    pub log_dir: String,
}

impl StepLogger {
    pub fn new(root: String, log_dir: String) -> (r: Self)
        ensures
            r.root == root,
            r.log_dir == log_dir,
    {
        Self { root, log_dir }
    }

    /// The log-file path for an entry: the zero-padded step index and role.
    pub fn log_file_path(&self, entry: &StepLogEntry) -> (r: String)
        ensures
            r@ == self.root@ + "/"@ + self.log_dir@ + "/"@ + "step-"@ + spec_pad3(
                spec_dec(entry.step_index as nat),
            ) + "-"@ + spec_role_str(entry.role) + ".json"@,
    {
        let mut path = clone_string(&self.root);
        path.append("/");
        path.append(self.log_dir.as_str());
        path.append("/");
        path.append("step-");
        let digits = dec_u32(entry.step_index);
        let padded = pad3_chars(digits);
        let padded_text = from_chars(&padded);
        path.append(padded_text.as_str());
        path.append("-");
        path.append(entry.role.as_str());
        path.append(".json");
        path
    }
}

/// The step index and role encoded in a step artifact name
/// `step-<digits>-<role><suffix>`, when it has that shape.
pub open spec fn spec_parse_step_filename(name: Seq<char>, suffix: Seq<char>) -> Option<(
    u32,
    Role,
)> {
    if !(spec_starts_with(name, "step-"@) && spec_ends_with(name, suffix) && name.len() >= 5
        + suffix.len()) {
        None
    } else {
        let inner = name.subrange(5, name.len() - suffix.len());
        let cut = spec_find_char(inner, '-');
        if cut == -1 {
            None
        } else {
            let step_part = inner.subrange(0, cut);
            let role_part = inner.subrange(cut + 1, inner.len() as int);
            match spec_parse_u32(step_part) {
                None => None,
                Some(step) => {
                    if role_part == "tester"@ {
                        Some((step, Role::Tester))
                    } else if role_part == "implementor"@ {
                        Some((step, Role::Implementor))
                    } else if role_part == "refactorer"@ {
                        Some((step, Role::Refactorer))
                    } else {
                        None
                    }
                },
            }
        }
    }
}

/// Parse a step artifact name with the given suffix.
pub fn parse_step_filename(name: &str, suffix: &str) -> (r: Option<(u32, Role)>)
    ensures
        r == spec_parse_step_filename(name@, suffix@),
{
    let chars = to_chars(name);
    let prefix = to_chars("step-");
    let suffix_chars = to_chars(suffix);
    let has_shape = starts_with_chars(&chars, &prefix) && ends_with_chars(&chars, &suffix_chars)
        && chars.len() >= 5 && chars.len() - 5 >= suffix_chars.len();
    if !has_shape {
        return None;
    }
    let inner = sub_chars(&chars, 5, chars.len() - suffix_chars.len());
    let cut = match find_char(&inner, '-') {
        Some(i) => i,
        None => {
            return None;
        },
    };
    proof {
        crate::text::lemma_find_char_bounds(inner@, '-');
    }
    let step_part = sub_chars(&inner, 0, cut);
    let role_part = sub_chars(&inner, cut + 1, inner.len());
    let step = match parse_u32_chars(&step_part) {
        Some(step) => step,
        None => {
            return None;
        },
    };
    let tester = to_chars("tester");
    let implementor = to_chars("implementor");
    let refactorer = to_chars("refactorer");
    if chars_eq(&role_part, &tester) {
        Some((step, Role::Tester))
    } else if chars_eq(&role_part, &implementor) {
        Some((step, Role::Implementor))
    } else if chars_eq(&role_part, &refactorer) {
        Some((step, Role::Refactorer))
    } else {
        None
    }
}

/// The artifact chosen when resuming: scanning the names in order, a parsed
/// entry replaces the current choice only when its step index is strictly
/// greater.
pub open spec fn spec_latest_selection(names: Seq<Seq<char>>, suffix: Seq<char>) -> Option<(
    int,
    u32,
    Role,
)>
    decreases names.len(),
{
    if names.len() == 0 {
        None
    } else {
        let prev = spec_latest_selection(names.drop_last(), suffix);
        match spec_parse_step_filename(names.last(), suffix) {
            None => prev,
            Some((step, role)) => match prev {
                None => Some((names.len() - 1, step, role)),
                Some((pi, pstep, prole)) => {
                    if step > pstep {
                        Some((names.len() - 1, step, role))
                    } else {
                        prev
                    }
                },
            },
        }
    }
}

/// Among the given artifact names, the index of the highest-numbered one
/// (the first such on ties), with its step index and role.
pub fn latest_selection(names: &Vec<String>, suffix: &str) -> (r: Option<(usize, u32, Role)>)
    ensures
        match (r, spec_latest_selection(strings_view(names@), suffix@)) {
            (Some((i, step, role)), Some((gi, gstep, grole))) => i == gi && step == gstep && role
                == grole && i < names@.len(),
            (None, None) => true,
            _ => false,
        },
{
    let n = names.len();
    let mut best: Option<(usize, u32, Role)> = None;
    let mut i: usize = 0;
    proof {
        assert(strings_view(names@).subrange(0, 0) =~= Seq::<Seq<char>>::empty());
    }
    while i < n
        invariant
            i <= n,
            n == names@.len(),
            match (best, spec_latest_selection(
                strings_view(names@).subrange(0, i as int),
                suffix@,
            )) {
                (Some((bi, bstep, brole)), Some((gi, gstep, grole))) => bi == gi && bstep == gstep
                    && brole == grole && bi < i,
                (None, None) => true,
                _ => false,
            },
        decreases n - i,
    {
        proof {
            assert(strings_view(names@)[i as int] == names@[i as int]@);
            let prefix2 = strings_view(names@).subrange(0, i + 1);
            assert(prefix2.drop_last() =~= strings_view(names@).subrange(0, i as int));
            assert(prefix2.last() == names@[i as int]@);
        }
        match parse_step_filename(names[i].as_str(), suffix) {
            Some(parsed) => {
                let replace = match &best {
                    Some(b) => parsed.0 > b.1,
                    None => true,
                };
                if replace {
                    best = Some((i, parsed.0, parsed.1));
                }
            },
            None => {},
        }
        i = i + 1;
    }
    proof {
        assert(strings_view(names@).subrange(0, n as int) =~= strings_view(names@));
    }
    best
}

} // verus!

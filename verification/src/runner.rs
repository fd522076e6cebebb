//! Verification-command collaborator contract and its configuration.
//!
//! Running the format, lint and test commands is outside work; the core only
//! sees each command's captured outcome through the [`Runner`] trait.

use vstd::prelude::*;

verus! {

/// Result of executing a verification command.
#[derive(Debug, Clone, PartialEq, Eq)]
pub struct RunOutcome {
    pub code: i32,
    pub stdout: String,
    pub stderr: String,
}

/// The format, lint and test runners used throughout the orchestrator.
pub trait Runner {
    fn fmt(&self) -> Result<RunOutcome, RunnerError>;

    fn check(&self) -> Result<RunOutcome, RunnerError>;

    fn test(&self) -> Result<RunOutcome, RunnerError>;
}

/// Errors reported when a verification command cannot run or fails.
#[derive(Debug, Clone)]
pub enum RunnerError {
    InvalidCommand(String),
    SpawnFailed { program: String, message: String },
    CommandFailed { program: String, code: i32, stderr: String },
}

/// Simple representation of a command line: a program and its arguments.
#[derive(Debug, Clone, PartialEq, Eq)]
pub struct CommandSpec {
    pub program: String,
    pub args: Vec<String>,
}

impl CommandSpec {
    pub fn new(program: String, args: Vec<String>) -> (r: Self)
        ensures
            r.program == program,
            r.args == args,
    {
        Self { program, args }
    }

    /// The first element becomes the program, the rest its arguments; an
    /// empty list is rejected.
    pub fn from_vec(parts: Vec<String>) -> (r: Result<Self, RunnerError>)
        ensures
            match r {
                Ok(spec) => {
                    &&& parts@.len() > 0
                    &&& spec.program == parts@[0]
                    &&& spec.args@ == parts@.drop_first()
                },
                Err(e) => {
                    &&& parts@.len() == 0
                    &&& e matches RunnerError::InvalidCommand(m) && m@
                        == "command cannot be empty"@
                },
            },
    {
        let mut rest = parts;
        if rest.len() == 0 {
            return Err(RunnerError::InvalidCommand(String::from_str("command cannot be empty")));
        }
        let program = rest.remove(0);
        proof {
            assert(parts@.remove(0) =~= parts@.drop_first());
        }
        Ok(Self { program, args: rest })
    }
}

/// Per-command configuration for the verification gate.
#[derive(Debug, Clone)]
pub struct RunnerCommands {
    pub fmt: CommandSpec,
    pub check: CommandSpec,
    pub test: CommandSpec,
}

impl RunnerCommands {
    /// Build the three command specs, rejecting the first empty list.
    pub fn from_raw(fmt: Vec<String>, check: Vec<String>, test: Vec<String>) -> (r: Result<
        Self,
        RunnerError,
    >)
        ensures
            match r {
                Ok(cmds) => {
                    &&& fmt@.len() > 0 && check@.len() > 0 && test@.len() > 0
                    &&& cmds.fmt.program == fmt@[0] && cmds.fmt.args@ == fmt@.drop_first()
                    &&& cmds.check.program == check@[0] && cmds.check.args@ == check@.drop_first()
                    &&& cmds.test.program == test@[0] && cmds.test.args@ == test@.drop_first()
                },
                Err(e) => {
                    &&& (fmt@.len() == 0 || check@.len() == 0 || test@.len() == 0)
                    &&& e matches RunnerError::InvalidCommand(m) && m@
                        == "command cannot be empty"@
                },
            },
    {
        let fmt = match CommandSpec::from_vec(fmt) {
            Ok(spec) => spec,
            Err(e) => {
                return Err(e);
            },
        };
        let check = match CommandSpec::from_vec(check) {
            Ok(spec) => spec,
            Err(e) => {
                return Err(e);
            },
        };
        let test = match CommandSpec::from_vec(test) {
            Ok(spec) => spec,
            Err(e) => {
                return Err(e);
            },
        };
        Ok(Self { fmt, check, test })
    }
}

/// Configuration of the command runner: the workspace root the commands run
/// in and the three command lines.  Spawning processes happens outside the
/// verified core, against this data.
#[derive(Debug, Clone)]
pub struct CommandRunner {
    pub root: String,
    pub commands: RunnerCommands,
}

impl CommandRunner {
    pub fn new(root: String, commands: RunnerCommands) -> (r: Self)
        ensures
            r.root == root,
            r.commands == commands,
    {
        Self { root, commands }
    }
}

} // verus!

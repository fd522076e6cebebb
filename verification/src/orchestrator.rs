//! Step orchestration: one plan, edit, verify, commit cycle per call.
//!
//! The orchestrator drives one step end to end: it builds the step context,
//! asks the role's agent for a plan, persists it, then attempts edits under
//! a bounded retry budget, runs the verification gate, and commits exactly
//! once on success before advancing the fixed role rotation.  Agents, the
//! version-control backend, the command runner and the plan store are
//! collaborators behind traits; their work is outside the verified core.

use vstd::prelude::*;

use crate::commit_policy::{CommitMessageInputs, CommitPolicy, RunnerOutcomeSummary};
use crate::config::{clone_string, TddConfig};
use crate::runner::{Runner, RunnerError};
use crate::step::{
    spec_role_next, spec_role_str, Role, StepContext, StepContextBuilder, StepContextError,
    StepResult, WorkspaceReader,
};
use crate::text::{dec_u32, from_chars, pad3_chars, spec_dec, spec_pad3, spec_trim, to_chars,
    trim_chars};
use crate::vcs::{CommitSignature, Vcs, VcsError};

verus! {

/// An agent failure, as reported by its backend.
#[derive(Debug)]
pub struct AgentError {
    pub message: String,
}

/// Common behavior required from every agent backing a role.
pub trait Agent {
    fn role(&self) -> Role;

    fn plan(&self, ctx: &StepContext) -> Result<String, AgentError>;

    fn edit(&self, ctx: &StepContext) -> Result<StepResult, AgentError>;
}

/// Persisting a plan file failed.
#[derive(Debug)]
pub enum PlanWriterError {
    CreateDir { path: String, message: String },
    WriteFile { path: String, message: String },
}

/// Storage for plan files, keyed by workspace-relative path.
/// Implementations live outside the verified core.
pub trait PlanStore {
    fn store(&self, rel_path: &str, contents: &str) -> Result<(), PlanWriterError>;
}

/// Computes the audit-trail plan-file names and bodies.
#[derive(Debug, Clone)]
pub struct PlanWriter {
    pub plan_dir: String,
}

impl PlanWriter {
    pub fn new(plan_dir: String) -> (r: Self)
        ensures
            r.plan_dir == plan_dir,
    {
        Self { plan_dir }
    }

    /// The plan-file name for a step: the zero-padded step index and the
    /// role name.
    pub fn file_name(&self, step_index: u32, role: Role) -> (r: String)
        ensures
            r@ == "step-"@ + spec_pad3(spec_dec(step_index as nat)) + "-"@ + spec_role_str(role)
                + ".md"@,
    {
        let mut name = String::from_str("step-");
        let digits = dec_u32(step_index);
        let padded = pad3_chars(digits);
        let padded_text = from_chars(&padded);
        name.append(padded_text.as_str());
        name.append("-");
        name.append(role.as_str());
        name.append(".md");
        name
    }

    /// The plan-file path relative to the workspace root.
    pub fn rel_path(&self, step_index: u32, role: Role) -> (r: String)
        ensures
            r@ == self.plan_dir@ + "/"@ + "step-"@ + spec_pad3(spec_dec(step_index as nat)) + "-"@
                + spec_role_str(role) + ".md"@,
    {
        let mut path = clone_string(&self.plan_dir);
        path.append("/");
        path.append("step-");
        let digits = dec_u32(step_index);
        let padded = pad3_chars(digits);
        let padded_text = from_chars(&padded);
        path.append(padded_text.as_str());
        path.append("-");
        path.append(role.as_str());
        path.append(".md");
        path
    }

    /// The plan-file body: a fixed header line and the trimmed plan text.
    pub fn body(&self, step_index: u32, role: Role, content: &str) -> (r: String)
        ensures
            r@ == "# Plan for step "@ + spec_dec(step_index as nat) + " ("@ + spec_role_str(role)
                + ")\n\n"@ + spec_trim(content@) + "\n"@,
    {
        let mut body = String::from_str("# Plan for step ");
        let digits = dec_u32(step_index);
        let digits_text = from_chars(&digits);
        body.append(digits_text.as_str());
        body.append(" (");
        body.append(role.as_str());
        body.append(")\n\n");
        let content_chars = to_chars(content);
        let trimmed = trim_chars(&content_chars);
        let trimmed_text = from_chars(&trimmed);
        body.append(trimmed_text.as_str());
        body.append("\n");
        body
    }
}

/// The starting role derived from history: a fresh workspace always starts
/// with the tester; otherwise the successor of the last known role, or the
/// tester when none is known.
pub open spec fn spec_from_history(last_role: Option<Role>, repo_is_empty: bool) -> Role {
    if repo_is_empty {
        Role::Tester
    } else {
        match last_role {
            Some(role) => spec_role_next(role),
            None => Role::Tester,
        }
    }
}

/// The tester, implementor, refactorer rotation.
#[derive(Debug, Clone, Copy, PartialEq, Eq, Structural)]
pub struct RoleCycle {
    current: Role,
}

impl RoleCycle {
    /// The role the cycle currently stands on.
    pub closed spec fn spec_current(&self) -> Role {
        self.current
    }

    /// Start from a specific role.
    pub fn new(initial: Role) -> (r: Self)
        ensures
            r.spec_current() == initial,
    {
        Self { current: initial }
    }

    /// Determine the starting role based on repository history.
    pub fn from_history(last_role: Option<Role>, repo_is_empty: bool) -> (r: Self)
        ensures
            r.spec_current() == spec_from_history(last_role, repo_is_empty),
    {
        if repo_is_empty {
            return Self::new(Role::Tester);
        }
        let initial = match last_role {
            Some(role) => role.next(),
            None => Role::Tester,
        };
        Self::new(initial)
    }

    /// Return the current role in the cycle.
    pub fn current(&self) -> (r: Role)
        ensures
            r == self.spec_current(),
    {
        self.current
    }

    /// Advance to the next role and return it.
    pub fn advance(&mut self) -> (r: Role)
        ensures
            final(self).spec_current() == spec_role_next(old(self).spec_current()),
            r == final(self).spec_current(),
    {
        self.current = self.current.next();
        self.current
    }
}

/// Why a step failed, with the role and step index attached.
#[derive(Debug)]
pub enum StepError {
    Context { error: StepContextError },
    Plan { role: Role, step_index: u32, error: AgentError },
    PlanPersist { role: Role, step_index: u32, error: PlanWriterError },
    Attempt { role: Role, step_index: u32, attempts: u32, failure: AttemptFailure },
    Stage { role: Role, step_index: u32, error: VcsError },
    Commit { role: Role, step_index: u32, error: VcsError },
}

/// What made an attempt fail.
#[derive(Debug)]
pub enum AttemptFailure {
    Edit(AgentError),
    Gate(RunnerError),
}

/// A fault found while constructing the orchestrator.
#[derive(Debug)]
pub enum OrchestratorError {
    MissingAgent { role: Role },
    Vcs(VcsError),
}

/// High-level control loop that coordinates agents and commits.
pub trait Orchestrator {
    fn current_role(&self) -> Role;

    fn next(&mut self) -> Result<(), StepError>;
}

/// Some pair in the list claims this role.
pub open spec fn spec_claims<A>(pairs: Seq<(Role, A)>, role: Role) -> bool {
    exists|i: int| 0 <= i < pairs.len() && (#[trigger] pairs[i]).0 == role
}

/// The position of the last pair claiming this role, or -1 when none does.
pub open spec fn spec_last_claim<A>(pairs: Seq<(Role, A)>, role: Role) -> int
    decreases pairs.len(),
{
    if pairs.len() == 0 {
        -1
    } else if pairs.last().0 == role {
        pairs.len() - 1
    } else {
        spec_last_claim(pairs.drop_last(), role)
    }
}

/// Sort the collected role claims into one slot per role: rejected with the
/// first role (in rotation order) that no pair claims; on success each slot
/// holds the last agent that claimed its role.
pub fn bucket_agents<A>(pairs: Vec<(Role, A)>) -> (r: Result<(A, A, A), OrchestratorError>)
    ensures
        match r {
            Ok(buckets) => {
                &&& spec_claims(pairs@, Role::Tester)
                &&& spec_claims(pairs@, Role::Implementor)
                &&& spec_claims(pairs@, Role::Refactorer)
                &&& buckets.0 == pairs@[spec_last_claim(pairs@, Role::Tester)].1
                &&& buckets.1 == pairs@[spec_last_claim(pairs@, Role::Implementor)].1
                &&& buckets.2 == pairs@[spec_last_claim(pairs@, Role::Refactorer)].1
            },
            Err(e) => e matches OrchestratorError::MissingAgent { role } && !spec_claims(
                pairs@,
                role,
            ) && match role {
                Role::Tester => true,
                Role::Implementor => spec_claims(pairs@, Role::Tester),
                Role::Refactorer => spec_claims(pairs@, Role::Tester) && spec_claims(
                    pairs@,
                    Role::Implementor,
                ),
            },
        },
{
    let ghost gpairs = pairs@;
    let mut rest = pairs;
    let mut tester: Option<A> = None;
    let mut implementor: Option<A> = None;
    let mut refactorer: Option<A> = None;
    let ghost mut i: int = 0;
    proof {
        assert(rest@ =~= gpairs.subrange(0, gpairs.len() as int));
        assert(gpairs.subrange(0, 0).len() == 0);
    }
    while rest.len() > 0
        invariant
            0 <= i <= gpairs.len(),
            rest@ == gpairs.subrange(i, gpairs.len() as int),
            slot_tracks(tester, gpairs.subrange(0, i), Role::Tester),
            slot_tracks(implementor, gpairs.subrange(0, i), Role::Implementor),
            slot_tracks(refactorer, gpairs.subrange(0, i), Role::Refactorer),
        decreases rest@.len(),
    {
        let (role, agent) = rest.remove(0);
        proof {
            let prefix = gpairs.subrange(0, i);
            let prefix2 = gpairs.subrange(0, i + 1);
            assert(gpairs.subrange(i, gpairs.len() as int)[0] == gpairs[i]);
            assert((role, agent) == gpairs[i]);
            assert(rest@ =~= gpairs.subrange(i + 1, gpairs.len() as int));
            assert(prefix2 =~= prefix.push(gpairs[i]));
            assert(prefix2.drop_last() =~= prefix);
            assert(prefix2.last() == gpairs[i]);
            lemma_claims_push(prefix, gpairs[i], Role::Tester);
            lemma_claims_push(prefix, gpairs[i], Role::Implementor);
            lemma_claims_push(prefix, gpairs[i], Role::Refactorer);
            assert(forall|k: int| 0 <= k < prefix.len() ==> prefix2[k] == prefix[k]);
            i = i + 1;
        }
        match role {
            Role::Tester => {
                tester = Some(agent);
            },
            Role::Implementor => {
                implementor = Some(agent);
            },
            Role::Refactorer => {
                refactorer = Some(agent);
            },
        }
    }
    proof {
        assert(gpairs.subrange(0, i) =~= gpairs);
    }
    let tester = match tester {
        Some(a) => a,
        None => {
            return Err(OrchestratorError::MissingAgent { role: Role::Tester });
        },
    };
    let implementor = match implementor {
        Some(a) => a,
        None => {
            return Err(OrchestratorError::MissingAgent { role: Role::Implementor });
        },
    };
    let refactorer = match refactorer {
        Some(a) => a,
        None => {
            return Err(OrchestratorError::MissingAgent { role: Role::Refactorer });
        },
    };
    Ok((tester, implementor, refactorer))
}

/// A slot agrees with the claims seen so far: empty exactly when the role is
/// unclaimed, else holding the last claimant.
pub open spec fn slot_tracks<A>(slot: Option<A>, pairs: Seq<(Role, A)>, role: Role) -> bool {
    match slot {
        Some(a) => spec_claims(pairs, role) && 0 <= spec_last_claim(pairs, role) < pairs.len()
            && a == pairs[spec_last_claim(pairs, role)].1,
        None => !spec_claims(pairs, role),
    }
}

/// Appending one pair claims its role there and leaves other roles' last
/// claims unchanged.
proof fn lemma_claims_push<A>(pairs: Seq<(Role, A)>, p: (Role, A), role: Role)
    ensures
        spec_claims(pairs.push(p), role) == (p.0 == role || spec_claims(pairs, role)),
        spec_last_claim(pairs.push(p), role) == (if p.0 == role {
            pairs.len() as int
        } else {
            spec_last_claim(pairs, role)
        }),
{
    let p2 = pairs.push(p);
    assert(p2.drop_last() =~= pairs);
    assert(p2.last() == p);
    assert(forall|k: int| 0 <= k < pairs.len() ==> p2[k] == pairs[k]);
    if p.0 == role {
        assert(p2[pairs.len() as int].0 == role);
        assert(spec_claims(p2, role));
    } else {
        if spec_claims(p2, role) {
            let w = choose|k: int| 0 <= k < p2.len() && (#[trigger] p2[k]).0 == role;
            assert(w < pairs.len());
            assert(pairs[w].0 == role);
            assert(spec_claims(pairs, role));
        }
        if spec_claims(pairs, role) {
            let w = choose|k: int| 0 <= k < pairs.len() && (#[trigger] pairs[k]).0 == role;
            assert(p2[w].0 == role);
            assert(spec_claims(p2, role));
        }
    }
}

/// Concrete orchestrator: one agent per role, a version-control backend, a
/// verification runner, a plan store and a workspace reader.
pub struct DefaultOrchestrator<V, R, A, P, W> {
    config: TddConfig,
    vcs: V,
    runner: R,
    tester: A,
    implementor: A,
    refactorer: A,
    plan_writer: PlanWriter,
    plan_store: P,
    workspace: W,
    cycle: RoleCycle,
    step_index: u32,
    commit_author: CommitSignature,
    commit_policy: CommitPolicy,
}

impl<V: Vcs, R: Runner, A: Agent, P: PlanStore, W: WorkspaceReader> DefaultOrchestrator<
    V,
    R,
    A,
    P,
    W,
> {
    /// The role the next step will act as.
    pub closed spec fn spec_current_role(&self) -> Role {
        self.cycle.spec_current()
    }

    /// The 1-based index of the next step.
    pub closed spec fn spec_step_index(&self) -> u32 {
        self.step_index
    }

    /// The configured attempts-per-agent ceiling.
    pub closed spec fn spec_configured_attempts(&self) -> u32 {
        self.config.workspace.max_attempts_per_agent
    }

    /// Build an orchestrator.  Exactly one agent per role must be present
    /// in `agents` (when several claim one role, the last wins): each
    /// agent's claimed role is collected once and the claims are sorted by
    /// `bucket_agents`, whose contract fixes the completeness check.  The
    /// starting role comes from the repository state and `last_role`: by
    /// `spec_from_history`, over the emptiness the backend reported.
    pub fn new(
        config: TddConfig,
        vcs: V,
        runner: R,
        agents: Vec<A>,
        last_role: Option<Role>,
        starting_step: u32,
        commit_policy: CommitPolicy,
        plan_store: P,
        workspace: W,
    ) -> (r: Result<Self, OrchestratorError>)
        ensures
            match r {
                Ok(o) => {
                    &&& o.spec_step_index() == starting_step
                    &&& o.spec_configured_attempts() == config.workspace.max_attempts_per_agent
                    &&& (o.spec_current_role() == spec_from_history(last_role, true)
                        || o.spec_current_role() == spec_from_history(last_role, false))
                },
                Err(_) => true,
            },
    {
        let repo_state = match vcs.state() {
            Ok(state) => state,
            Err(e) => {
                return Err(OrchestratorError::Vcs(e));
            },
        };
        let mut pairs: Vec<(Role, A)> = Vec::new();
        let mut rest = agents;
        while rest.len() > 0
            invariant
                true,
            decreases rest@.len(),
        {
            let agent = rest.remove(0);
            let role = agent.role();
            pairs.push((role, agent));
        }
        let (tester, implementor, refactorer) = match bucket_agents(pairs) {
            Ok(buckets) => buckets,
            Err(e) => {
                return Err(e);
            },
        };
        let repo_is_empty = match &repo_state.head_commit {
            Some(_) => false,
            None => true,
        };
        let cycle = RoleCycle::from_history(last_role, repo_is_empty);
        let commit_author = CommitSignature::new(
            clone_string(&config.commit_author.name),
            clone_string(&config.commit_author.email),
        );
        let plan_writer = PlanWriter::new(clone_string(&config.workspace.plan_dir));
        Ok(
            Self {
                config,
                vcs,
                runner,
                tester,
                implementor,
                refactorer,
                plan_writer,
                plan_store,
                workspace,
                cycle,
                step_index: starting_step,
                commit_author,
                commit_policy,
            },
        )
    }

    /// The attempt ceiling for a role: the tester always gets exactly one
    /// attempt; the others get the configured ceiling, at least one.
    pub fn max_attempts_for(&self, role: Role) -> (r: u32)
        ensures
            role == Role::Tester ==> r == 1,
            role != Role::Tester ==> r == (if self.spec_configured_attempts() == 0 {
                1u32
            } else {
                self.spec_configured_attempts()
            }),
    {
        if let Role::Tester = role {
            1
        } else {
            if self.config.workspace.max_attempts_per_agent == 0 {
                1
            } else {
                self.config.workspace.max_attempts_per_agent
            }
        }
    }

    /// Run the verification commands: invoke all three and capture their
    /// outcomes.  Success requires all of them; otherwise the first failing
    /// command's error is returned.
    fn run_ci_checks(&self) -> Result<RunnerOutcomeSummary, RunnerError> {
        let fmt = self.runner.fmt();
        let check = self.runner.check();
        let test = self.runner.test();
        match (fmt, check, test) {
            (Ok(f), Ok(c), Ok(t)) => Ok(RunnerOutcomeSummary::new(f, c, t)),
            (Err(e), _, _) => Err(e),
            (_, Err(e), _) => Err(e),
            (_, _, Err(e)) => Err(e),
        }
    }

    /// The role the next call to `next` will act as.
    pub fn current_role(&self) -> (r: Role)
        ensures
            r == self.spec_current_role(),
    {
        self.cycle.current()
    }

    /// The 1-based index of the next step.
    pub fn step_index(&self) -> (r: u32)
        ensures
            r == self.spec_step_index(),
    {
        self.step_index
    }

    /// Run one full step: build context, plan, persist the plan, then edit,
    /// verify and commit under the role's attempt budget.  On success
    /// exactly one commit was made, the rotation advanced one role and the
    /// step index by one; on failure both are unchanged and no commit was
    /// made by this call.
    pub fn next(&mut self) -> (r: Result<(), StepError>)
        requires
            old(self).spec_step_index() < u32::MAX,
        ensures
            r is Ok ==> final(self).spec_step_index() == old(self).spec_step_index() + 1
                && final(self).spec_current_role() == spec_role_next(
                old(self).spec_current_role(),
            ),
            r is Err ==> final(self).spec_step_index() == old(self).spec_step_index()
                && final(self).spec_current_role() == old(self).spec_current_role(),
            final(self).spec_configured_attempts() == old(self).spec_configured_attempts(),
            match r {
                Ok(()) => true,
                Err(e) => match e {
                    StepError::Context { .. } => true,
                    StepError::Plan { role, step_index, .. } => role == old(
                        self,
                    ).spec_current_role() && step_index == old(self).spec_step_index(),
                    StepError::PlanPersist { role, step_index, .. } => role == old(
                        self,
                    ).spec_current_role() && step_index == old(self).spec_step_index(),
                    StepError::Attempt { role, step_index, attempts, .. } => {
                        &&& role == old(self).spec_current_role()
                        &&& step_index == old(self).spec_step_index()
                        &&& attempts >= 1
                        &&& role == Role::Tester ==> attempts == 1
                        &&& attempts <= (if role == Role::Tester {
                            1u32
                        } else if old(self).spec_configured_attempts() == 0 {
                            1u32
                        } else {
                            old(self).spec_configured_attempts()
                        })
                    },
                    StepError::Stage { role, step_index, .. } => role == old(
                        self,
                    ).spec_current_role() && step_index == old(self).spec_step_index(),
                    StepError::Commit { role, step_index, .. } => role == old(
                        self,
                    ).spec_current_role() && step_index == old(self).spec_step_index(),
                },
            },
    {
        let role = self.cycle.current();
        let builder = StepContextBuilder::new(&self.vcs, &self.workspace);
        let ctx = match builder.build(role, self.step_index) {
            Ok(c) => c,
            Err(error) => {
                return Err(StepError::Context { error });
            },
        };
        let plan_result = match role {
            Role::Tester => self.tester.plan(&ctx),
            Role::Implementor => self.implementor.plan(&ctx),
            Role::Refactorer => self.refactorer.plan(&ctx),
        };
        let plan = match plan_result {
            Ok(p) => p,
            Err(error) => {
                return Err(StepError::Plan { role, step_index: self.step_index, error });
            },
        };
        let rel_path = self.plan_writer.rel_path(self.step_index, role);
        let body = self.plan_writer.body(self.step_index, role, plan.as_str());
        match self.plan_store.store(rel_path.as_str(), body.as_str()) {
            Ok(()) => {},
            Err(error) => {
                return Err(StepError::PlanPersist { role, step_index: self.step_index, error });
            },
        }
        let max_attempts = self.max_attempts_for(role);
        let mut attempt: u32 = 0;
        loop
            invariant
                attempt < max_attempts,
                max_attempts >= 1,
                role == old(self).spec_current_role(),
                max_attempts == (if role == Role::Tester {
                    1u32
                } else if old(self).spec_configured_attempts() == 0 {
                    1u32
                } else {
                    old(self).spec_configured_attempts()
                }),
                self.cycle == old(self).cycle,
                self.step_index == old(self).step_index,
                self.config == old(self).config,
                old(self).spec_step_index() < u32::MAX,
            decreases max_attempts - attempt,
        {
            attempt = attempt + 1;
            let edit_result = match role {
                Role::Tester => self.tester.edit(&ctx),
                Role::Implementor => self.implementor.edit(&ctx),
                Role::Refactorer => self.refactorer.edit(&ctx),
            };
            let failure: AttemptFailure = match edit_result {
                Ok(step_result) => {
                    match self.run_ci_checks() {
                        Ok(ci) => {
                            match self.vcs.stage_all() {
                                Ok(()) => {},
                                Err(error) => {
                                    return Err(
                                        StepError::Stage {
                                            role,
                                            step_index: self.step_index,
                                            error,
                                        },
                                    );
                                },
                            }
                            let inputs = CommitMessageInputs {
                                role,
                                step_index: self.step_index,
                                kata_description: clone_string(&ctx.kata_description),
                                agent_commit_message: step_result.commit_message,
                                notes: step_result.notes,
                                files_changed: step_result.files_changed,
                                plan_path: clone_string(&rel_path),
                                runner_outcomes: ci,
                            };
                            let commit_message = self.commit_policy.format(&inputs);
                            match self.vcs.commit(commit_message.as_str(), &self.commit_author) {
                                Ok(_commit_id) => {},
                                Err(error) => {
                                    return Err(
                                        StepError::Commit {
                                            role,
                                            step_index: self.step_index,
                                            error,
                                        },
                                    );
                                },
                            }
                            let _advanced = self.cycle.advance();
                            self.step_index = self.step_index + 1;
                            return Ok(());
                        },
                        Err(gate_error) => AttemptFailure::Gate(gate_error),
                    }
                },
                Err(edit_error) => AttemptFailure::Edit(edit_error),
            };
            let tester_step = match role {
                Role::Tester => true,
                _ => false,
            };
            if tester_step || attempt >= max_attempts {
                return Err(
                    StepError::Attempt {
                        role,
                        step_index: self.step_index,
                        attempts: attempt,
                        failure,
                    },
                );
            }
        }
    }
}

} // verus!

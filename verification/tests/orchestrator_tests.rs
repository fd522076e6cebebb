use std::cell::{Cell, RefCell};
use std::rc::Rc;

use tdd_machine::commit_policy::CommitPolicy;
use tdd_machine::config::{
    CiConfig, CommitAuthor, LlmConfig, LlmProvider, RoleConfig, RoleConfigs, TddConfig,
    WorkspaceConfig,
};
use tdd_machine::orchestrator::{
    bucket_agents, Agent, AgentError, DefaultOrchestrator, OrchestratorError, PlanStore,
    PlanWriter, PlanWriterError, RoleCycle,
};
use tdd_machine::runner::{RunOutcome, Runner, RunnerError};
use tdd_machine::step::{Role, StepContext, StepContextError, StepResult, WorkspaceReader};
use tdd_machine::vcs::{CommitSignature, RepoState, Vcs, VcsError};

fn sample_config(max_attempts: u32) -> TddConfig {
    TddConfig {
        workspace: WorkspaceConfig {
            kata_file: "kata.md".to_string(),
            plan_dir: ".tdd/plan".to_string(),
            log_dir: ".tdd/logs".to_string(),
            max_steps: 10,
            max_attempts_per_agent: max_attempts,
        },
        roles: RoleConfigs {
            tester: RoleConfig { model: "gpt".to_string() },
            implementor: RoleConfig { model: "gpt".to_string() },
            refactorer: RoleConfig { model: "gpt".to_string() },
        },
        llm: LlmConfig {
            provider: LlmProvider::Openai,
            base_url: "http://localhost".to_string(),
            api_key_env: "KEY".to_string(),
            api_version: None,
        },
        ci: CiConfig {
            fmt: vec!["cargo".to_string(), "fmt".to_string()],
            check: vec!["cargo".to_string(), "clippy".to_string()],
            test: vec!["cargo".to_string(), "test".to_string()],
        },
        commit_author: CommitAuthor {
            name: "Bot".to_string(),
            email: "bot@example.com".to_string(),
        },
    }
}

struct FakeVcs {
    commits: Rc<RefCell<Vec<String>>>,
    head: Option<String>,
}

impl Vcs for FakeVcs {
    fn ensure_initialized(&self) -> Result<(), VcsError> {
        Ok(())
    }

    fn state(&self) -> Result<RepoState, VcsError> {
        Ok(RepoState {
            head_commit: self.head.clone(),
            last_commit_message: Some("initial".to_string()),
            last_commit_diff: Some("diff".to_string()),
            is_clean: true,
        })
    }

    fn stage_all(&self) -> Result<(), VcsError> {
        Ok(())
    }

    fn commit(&self, message: &str, _author: &CommitSignature) -> Result<String, VcsError> {
        let mut commits = self.commits.borrow_mut();
        commits.push(message.to_string());
        Ok(format!("commit-{}", commits.len()))
    }
}

struct FakeRunner {
    test_failures_left: Cell<u32>,
}

impl FakeRunner {
    fn passing() -> Self {
        Self { test_failures_left: Cell::new(0) }
    }

    fn failing_tests(times: u32) -> Self {
        Self { test_failures_left: Cell::new(times) }
    }

    fn outcome(stage: &str) -> RunOutcome {
        RunOutcome { code: 0, stdout: format!("{stage} ok"), stderr: String::new() }
    }
}

impl Runner for FakeRunner {
    fn fmt(&self) -> Result<RunOutcome, RunnerError> {
        Ok(Self::outcome("fmt"))
    }

    fn check(&self) -> Result<RunOutcome, RunnerError> {
        Ok(Self::outcome("check"))
    }

    fn test(&self) -> Result<RunOutcome, RunnerError> {
        let left = self.test_failures_left.get();
        if left > 0 {
            self.test_failures_left.set(left - 1);
            return Err(RunnerError::CommandFailed {
                program: "test".to_string(),
                code: 1,
                stderr: "boom".to_string(),
            });
        }
        Ok(Self::outcome("test"))
    }
}

struct FakeAgent {
    role: Role,
    edit_calls: Rc<RefCell<u32>>,
}

impl FakeAgent {
    fn new(role: Role) -> Self {
        Self { role, edit_calls: Rc::new(RefCell::new(0)) }
    }
}

impl Agent for FakeAgent {
    fn role(&self) -> Role {
        self.role
    }

    fn plan(&self, _ctx: &StepContext) -> Result<String, AgentError> {
        Ok("plan".to_string())
    }

    fn edit(&self, _ctx: &StepContext) -> Result<StepResult, AgentError> {
        *self.edit_calls.borrow_mut() += 1;
        Ok(StepResult {
            files_changed: vec!["src/lib.rs".to_string()],
            commit_message: "test: add failing test".to_string(),
            notes: "notes".to_string(),
        })
    }
}

struct FakePlanStore {
    stored: Rc<RefCell<Vec<(String, String)>>>,
}

impl PlanStore for FakePlanStore {
    fn store(&self, rel_path: &str, contents: &str) -> Result<(), PlanWriterError> {
        self.stored.borrow_mut().push((rel_path.to_string(), contents.to_string()));
        Ok(())
    }
}

struct FakeWorkspace;

impl WorkspaceReader for FakeWorkspace {
    fn read_kata(&self) -> Result<String, StepContextError> {
        Ok("Solve kata".to_string())
    }

    fn list_files(&self) -> Result<Vec<String>, StepContextError> {
        Ok(vec!["src/lib.rs".to_string(), "kata.md".to_string()])
    }
}

#[test]
fn role_cycle_advances_in_order() {
    let mut cycle = RoleCycle::new(Role::Tester);
    assert_eq!(cycle.current(), Role::Tester);
    assert_eq!(cycle.advance(), Role::Implementor);
    assert_eq!(cycle.advance(), Role::Refactorer);
    assert_eq!(cycle.advance(), Role::Tester);
}

#[test]
fn role_cycle_respects_empty_repo_rule() {
    let cycle = RoleCycle::from_history(Some(Role::Refactorer), true);
    assert_eq!(cycle.current(), Role::Tester);
}

#[test]
fn role_cycle_resumes_after_last_role() {
    let cycle = RoleCycle::from_history(Some(Role::Tester), false);
    assert_eq!(cycle.current(), Role::Implementor);

    let cycle = RoleCycle::from_history(None, false);
    assert_eq!(cycle.current(), Role::Tester);
}

#[test]
fn plan_writer_names_and_bodies() {
    let writer = PlanWriter::new(".tdd/plan".to_string());
    assert_eq!(writer.file_name(3, Role::Tester), "step-003-tester.md");
    assert_eq!(writer.rel_path(12, Role::Implementor), ".tdd/plan/step-012-implementor.md");
    let body = writer.body(3, Role::Tester, "  add sample test  ");
    assert_eq!(body, "# Plan for step 3 (tester)\n\nadd sample test\n");
}

#[test]
fn orchestrator_runs_three_steps_with_one_commit_each() {
    let commits = Rc::new(RefCell::new(Vec::new()));
    let stored = Rc::new(RefCell::new(Vec::new()));
    let vcs = FakeVcs { commits: commits.clone(), head: None };
    let agents = vec![
        FakeAgent::new(Role::Tester),
        FakeAgent::new(Role::Implementor),
        FakeAgent::new(Role::Refactorer),
    ];
    let mut orchestrator = DefaultOrchestrator::new(
        sample_config(2),
        vcs,
        FakeRunner::passing(),
        agents,
        None,
        1,
        CommitPolicy::default(),
        FakePlanStore { stored: stored.clone() },
        FakeWorkspace,
    )
    .expect("orchestrator builds");

    assert_eq!(orchestrator.current_role(), Role::Tester);
    orchestrator.next().expect("tester step succeeds");
    assert_eq!(orchestrator.current_role(), Role::Implementor);
    orchestrator.next().expect("implementor step succeeds");
    assert_eq!(orchestrator.current_role(), Role::Refactorer);
    orchestrator.next().expect("refactorer step succeeds");
    assert_eq!(orchestrator.current_role(), Role::Tester);
    assert_eq!(orchestrator.step_index(), 4);
    assert_eq!(commits.borrow().len(), 3);
    let plans: Vec<String> = stored.borrow().iter().map(|(p, _)| p.clone()).collect();
    assert_eq!(
        plans,
        vec![
            ".tdd/plan/step-001-tester.md",
            ".tdd/plan/step-002-implementor.md",
            ".tdd/plan/step-003-refactorer.md",
        ]
    );
    for message in commits.borrow().iter() {
        assert!(message.contains("Context:"));
        assert!(message.contains("Verification:"));
    }
}

#[test]
fn retries_for_implementor_on_runner_failure() {
    let commits = Rc::new(RefCell::new(Vec::new()));
    let stored = Rc::new(RefCell::new(Vec::new()));
    let vcs = FakeVcs { commits: commits.clone(), head: Some("abc123".to_string()) };
    let retry_agent = FakeAgent::new(Role::Implementor);
    let edit_calls = retry_agent.edit_calls.clone();
    let agents = vec![
        FakeAgent::new(Role::Tester),
        retry_agent,
        FakeAgent::new(Role::Refactorer),
    ];
    let mut orchestrator = DefaultOrchestrator::new(
        sample_config(2),
        vcs,
        FakeRunner::failing_tests(1),
        agents,
        Some(Role::Tester),
        5,
        CommitPolicy::default(),
        FakePlanStore { stored },
        FakeWorkspace,
    )
    .expect("orchestrator builds");

    assert_eq!(orchestrator.max_attempts_for(Role::Implementor), 2);
    assert_eq!(orchestrator.current_role(), Role::Implementor);
    orchestrator.next().expect("second attempt succeeds");
    assert_eq!(*edit_calls.borrow(), 2);
    assert_eq!(commits.borrow().len(), 1);
}

#[test]
fn tester_never_retries() {
    let commits = Rc::new(RefCell::new(Vec::new()));
    let stored = Rc::new(RefCell::new(Vec::new()));
    let vcs = FakeVcs { commits: commits.clone(), head: None };
    let tester = FakeAgent::new(Role::Tester);
    let edit_calls = tester.edit_calls.clone();
    let agents = vec![
        tester,
        FakeAgent::new(Role::Implementor),
        FakeAgent::new(Role::Refactorer),
    ];
    let mut orchestrator = DefaultOrchestrator::new(
        sample_config(5),
        vcs,
        FakeRunner::failing_tests(1),
        agents,
        None,
        1,
        CommitPolicy::default(),
        FakePlanStore { stored },
        FakeWorkspace,
    )
    .expect("orchestrator builds");

    assert!(orchestrator.next().is_err());
    assert_eq!(*edit_calls.borrow(), 1);
    assert_eq!(commits.borrow().len(), 0);
    assert_eq!(orchestrator.current_role(), Role::Tester);
    assert_eq!(orchestrator.step_index(), 1);
}

#[test]
fn tester_attempt_budget_is_always_one() {
    let stored = Rc::new(RefCell::new(Vec::new()));
    let orchestrator = DefaultOrchestrator::new(
        sample_config(9),
        FakeVcs { commits: Rc::new(RefCell::new(Vec::new())), head: None },
        FakeRunner::passing(),
        vec![
            FakeAgent::new(Role::Tester),
            FakeAgent::new(Role::Implementor),
            FakeAgent::new(Role::Refactorer),
        ],
        None,
        1,
        CommitPolicy::default(),
        FakePlanStore { stored },
        FakeWorkspace,
    )
    .expect("orchestrator builds");
    assert_eq!(orchestrator.max_attempts_for(Role::Tester), 1);
    assert_eq!(orchestrator.max_attempts_for(Role::Implementor), 9);
    assert_eq!(orchestrator.max_attempts_for(Role::Refactorer), 9);
}

#[test]
fn attempt_budget_is_at_least_one() {
    let stored = Rc::new(RefCell::new(Vec::new()));
    let orchestrator = DefaultOrchestrator::new(
        sample_config(0),
        FakeVcs { commits: Rc::new(RefCell::new(Vec::new())), head: None },
        FakeRunner::passing(),
        vec![
            FakeAgent::new(Role::Tester),
            FakeAgent::new(Role::Implementor),
            FakeAgent::new(Role::Refactorer),
        ],
        None,
        1,
        CommitPolicy::default(),
        FakePlanStore { stored },
        FakeWorkspace,
    )
    .expect("orchestrator builds");
    assert_eq!(orchestrator.max_attempts_for(Role::Implementor), 1);
}

#[test]
fn bucketing_keeps_the_last_claimant_per_role() {
    let pairs = vec![
        (Role::Tester, 1),
        (Role::Implementor, 2),
        (Role::Refactorer, 3),
        (Role::Tester, 9),
    ];
    let (tester, implementor, refactorer) = bucket_agents(pairs).expect("all roles claimed");
    assert_eq!((tester, implementor, refactorer), (9, 2, 3));
}

#[test]
fn bucketing_names_the_first_missing_role() {
    let err = bucket_agents(vec![(Role::Tester, 1)]).unwrap_err();
    assert!(matches!(err, OrchestratorError::MissingAgent { role: Role::Implementor }));
    let err = bucket_agents(Vec::<(Role, u8)>::new()).unwrap_err();
    assert!(matches!(err, OrchestratorError::MissingAgent { role: Role::Tester }));
    let err = bucket_agents(vec![(Role::Tester, 1), (Role::Implementor, 2)]).unwrap_err();
    assert!(matches!(err, OrchestratorError::MissingAgent { role: Role::Refactorer }));
}

#[test]
fn missing_agent_is_a_construction_error() {
    let stored = Rc::new(RefCell::new(Vec::new()));
    let result = DefaultOrchestrator::new(
        sample_config(2),
        FakeVcs { commits: Rc::new(RefCell::new(Vec::new())), head: None },
        FakeRunner::passing(),
        vec![FakeAgent::new(Role::Tester), FakeAgent::new(Role::Implementor)],
        None,
        1,
        CommitPolicy::default(),
        FakePlanStore { stored },
        FakeWorkspace,
    );
    assert!(result.is_err());
}

use tdd_machine::config::{
    CiConfig, CommitAuthor, ConfigError, LlmConfig, LlmProvider, RoleConfig, RoleConfigs,
    TddConfig, WorkspaceConfig,
};
use tdd_machine::doctor::{
    assemble_doctor_report, bootstrap_health, check_ci_commands, CiDoctorReport, LlmDoctorReport,
};
use tdd_machine::logging::{BootstrapLogEntry, CommandLog, RunnerLog, StepLogEntry};
use tdd_machine::status::build_report;
use tdd_machine::step::Role;
use tdd_machine::vcs::RepoState;

fn sample_config() -> TddConfig {
    TddConfig {
        workspace: WorkspaceConfig {
            kata_file: "kata.md".to_string(),
            plan_dir: ".tdd/plan".to_string(),
            log_dir: ".tdd/logs".to_string(),
            max_steps: 0,
            max_attempts_per_agent: 0,
        },
        roles: RoleConfigs {
            tester: RoleConfig { model: "gpt-4o-mini".to_string() },
            implementor: RoleConfig { model: "gpt-4o-mini".to_string() },
            refactorer: RoleConfig { model: "gpt-4o-mini".to_string() },
        },
        llm: LlmConfig {
            provider: LlmProvider::Openai,
            base_url: "https://api.example.com".to_string(),
            api_key_env: "API_KEY".to_string(),
            api_version: None,
        },
        ci: CiConfig {
            fmt: vec!["cargo".to_string(), "fmt".to_string()],
            check: vec!["cargo".to_string(), "clippy".to_string()],
            test: vec!["cargo".to_string(), "test".to_string()],
        },
        commit_author: CommitAuthor {
            name: "Example".to_string(),
            email: "example@example.com".to_string(),
        },
    }
}

#[test]
fn validate_normalizes_zero_limits() {
    let mut config = sample_config();
    config.validate().expect("valid config passes");
    assert_eq!(config.workspace.max_steps, 10);
    assert_eq!(config.workspace.max_attempts_per_agent, 2);
}

#[test]
fn rejects_empty_model() {
    let mut config = sample_config();
    config.roles.tester.model = "  ".to_string();
    let err = config.validate().unwrap_err();
    match err {
        ConfigError::InvalidField { field, reason } => {
            assert_eq!(field, "roles.tester.model");
            assert_eq!(reason, "model cannot be empty");
        },
    }
}

#[test]
fn rejects_empty_commands_and_endpoints() {
    let mut config = sample_config();
    config.ci.check = Vec::new();
    match config.validate().unwrap_err() {
        ConfigError::InvalidField { field, .. } => assert_eq!(field, "ci.check"),
    }

    let mut config2 = sample_config();
    config2.llm.base_url = String::new();
    match config2.validate().unwrap_err() {
        ConfigError::InvalidField { field, .. } => assert_eq!(field, "llm.base_url"),
    }

    let mut config3 = sample_config();
    config3.commit_author.email = " ".to_string();
    match config3.validate().unwrap_err() {
        ConfigError::InvalidField { field, .. } => assert_eq!(field, "commit_author.email"),
    }
}

#[test]
fn effective_api_version_defaults_for_copilot() {
    let mut config = sample_config();
    config.llm.provider = LlmProvider::GithubCopilot;
    assert_eq!(config.llm.effective_api_version(), Some("2023-12-01".to_string()));
    config.llm.api_version = Some("2024-05-01".to_string());
    assert_eq!(config.llm.effective_api_version(), Some("2024-05-01".to_string()));
    config.llm.provider = LlmProvider::Openai;
    assert_eq!(config.llm.effective_api_version(), Some("2024-05-01".to_string()));
    config.llm.api_version = None;
    assert_eq!(config.llm.effective_api_version(), None);
}

#[test]
fn provider_names_are_stable() {
    assert_eq!(LlmProvider::Openai.as_str(), "openai");
    assert_eq!(LlmProvider::GithubCopilot.as_str(), "github_copilot");
    assert_eq!(LlmProvider::default(), LlmProvider::Openai);
}

fn sample_log_entry() -> StepLogEntry {
    let command = CommandLog { code: 0, stdout: "ok".to_string(), stderr: String::new() };
    StepLogEntry::new(
        2,
        Role::Implementor,
        ".tdd/plan/step-002-implementor.md".to_string(),
        vec!["src/lib.rs".to_string()],
        "deadbeef".to_string(),
        "feat: add behavior".to_string(),
        String::new(),
        "openai".to_string(),
        RunnerLog { fmt: command.clone(), check: command.clone(), test: command },
    )
}

fn sample_repo_state() -> RepoState {
    RepoState {
        head_commit: Some("cafe".to_string()),
        last_commit_message: Some("initial".to_string()),
        last_commit_diff: None,
        is_clean: true,
    }
}

#[test]
fn status_resumes_after_logged_step() {
    let report = build_report(10, sample_repo_state(), Some(sample_log_entry()));
    assert_eq!(report.next_role, Role::Refactorer);
    assert_eq!(report.next_step, 3);
    assert_eq!(report.last_commit_id.as_deref(), Some("deadbeef"));
    let lines = report.format_lines();
    assert_eq!(lines[0], "Next role: refactorer (step 3 of 10)");
    assert_eq!(lines[1], "Workspace clean: yes");
    assert_eq!(lines[2], "Last commit: feat: add behavior (deadbeef)");
    assert_eq!(lines[3], "Last step: implementor #2, plan .tdd/plan/step-002-implementor.md");
    assert_eq!(lines[4], "CI exit codes: fmt=0, check=0, test=0");
}

#[test]
fn status_starts_fresh_without_logs() {
    let report = build_report(10, sample_repo_state(), None);
    assert_eq!(report.next_role, Role::Tester);
    assert_eq!(report.next_step, 1);
    let lines = report.format_lines();
    assert_eq!(lines[0], "Next role: tester (step 1 of 10)");
    assert_eq!(lines[3], "No step logs found.");
}

#[test]
fn doctor_aggregates_issues() {
    let config = sample_config();
    let ci = check_ci_commands(&config.ci, true, false, true);
    assert_eq!(ci.missing_binaries, vec!["cargo".to_string()]);
    assert!(!ci.all_ready());

    let llm = LlmDoctorReport {
        provider: LlmProvider::Openai,
        token_env: "MISSING_TOKEN".to_string(),
        token_loaded: false,
        base_url: "http://127.0.0.1:9".to_string(),
        base_url_reachable: false,
    };
    let report = assemble_doctor_report(
        false,
        Some("Workspace has uncommitted changes".to_string()),
        ci,
        llm,
        None,
    );
    assert_eq!(report.issues.len(), 4);
    assert!(report.issues[1].contains("Missing CI binaries: cargo"));
    assert!(report.issues[2].contains("MISSING_TOKEN"));
    let lines = report.format_lines();
    assert_eq!(lines[0], "Git clean: no");
    assert!(lines.iter().any(|l| l.contains("Issues detected")));
    assert!(lines.iter().any(|l| l == "- Workspace has uncommitted changes"));
}

#[test]
fn doctor_reports_clean_environment() {
    let config = sample_config();
    let ci = check_ci_commands(&config.ci, true, true, true);
    let llm = LlmDoctorReport {
        provider: LlmProvider::Openai,
        token_env: "TEST_TOKEN".to_string(),
        token_loaded: true,
        base_url: "https://api.example.com".to_string(),
        base_url_reachable: true,
    };
    let report = assemble_doctor_report(true, None, ci, llm, None);
    assert!(report.issues.is_empty());
    let lines = report.format_lines();
    assert!(lines.iter().any(|l| l.contains("All doctor checks passed")));
}

#[test]
fn bootstrap_health_flags_failures() {
    let entry = BootstrapLogEntry {
        command: vec!["sh".to_string()],
        working_dir: ".".to_string(),
        skipped: false,
        skip_reason: None,
        exit_code: Some(9),
        stdout: String::new(),
        stderr: "fail".to_string(),
        started_at_ms: 1,
        duration_ms: 1,
    };
    let report = bootstrap_health(
        ".tdd/state/bootstrap.json".to_string(),
        Vec::new(),
        Some(entry),
        Vec::new(),
    );
    assert!(!report.healthy);
    assert_eq!(report.issues, vec!["Last bootstrap run exited with code Some(9)".to_string()]);

    let skipped_entry = BootstrapLogEntry {
        command: vec!["sh".to_string()],
        working_dir: ".".to_string(),
        skipped: true,
        skip_reason: Some("skip marker present at x".to_string()),
        exit_code: None,
        stdout: String::new(),
        stderr: String::new(),
        started_at_ms: 1,
        duration_ms: 0,
    };
    let healthy = bootstrap_health(
        ".tdd/state/bootstrap.json".to_string(),
        vec![".tdd/state/skip".to_string()],
        Some(skipped_entry),
        Vec::new(),
    );
    assert!(healthy.healthy);
}

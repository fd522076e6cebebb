use tdd_machine::bootstrap::{marker_path, skip_reason_for, split_command, BootstrapResult};
use tdd_machine::executor::{detect_plan_progress, plan_step_budget, StepBudgetError};
use tdd_machine::logging::{
    latest_selection, parse_step_filename, BootstrapLogEntry, BootstrapLogger, CommandLog,
    RunnerLog, StepLogEntry, StepLogger,
};
use tdd_machine::commit_policy::RunnerOutcomeSummary;
use tdd_machine::runner::{CommandSpec, RunOutcome, RunnerCommands, RunnerError};
use tdd_machine::step::{Role, StepContext};
use tdd_machine::support::{edit_messages, plan_messages, truncate, MessageRole};

fn sample_log_entry(step_index: u32, role: Role) -> StepLogEntry {
    let command = CommandLog { code: 0, stdout: "ok".to_string(), stderr: String::new() };
    StepLogEntry::new(
        step_index,
        role,
        ".tdd/plan/plan.md".to_string(),
        vec!["tests/math.rs".to_string()],
        "abc123".to_string(),
        "test: add failing case".to_string(),
        "notes".to_string(),
        "openai".to_string(),
        RunnerLog { fmt: command.clone(), check: command.clone(), test: command },
    )
}

#[test]
fn parses_step_filenames() {
    assert_eq!(parse_step_filename("step-003-tester.json", ".json"), Some((3, Role::Tester)));
    assert_eq!(
        parse_step_filename("step-012-implementor.md", ".md"),
        Some((12, Role::Implementor))
    );
    assert_eq!(parse_step_filename("step-9-refactorer.md", ".md"), Some((9, Role::Refactorer)));
    assert_eq!(parse_step_filename("bootstrap-12.json", ".json"), None);
    assert_eq!(parse_step_filename("step-xyz-tester.json", ".json"), None);
    assert_eq!(parse_step_filename("step-003-cook.json", ".json"), None);
}

#[test]
fn latest_selection_finds_highest_step() {
    let names = vec![
        "step-001-tester.json".to_string(),
        "step-003-refactorer.json".to_string(),
        "step-002-implementor.json".to_string(),
        "notes.txt".to_string(),
    ];
    let best = latest_selection(&names, ".json").expect("a log entry is found");
    assert_eq!(best, (1, 3, Role::Refactorer));
    assert!(latest_selection(&vec!["readme.md".to_string()], ".json").is_none());
}

#[test]
fn latest_selection_keeps_first_on_ties() {
    let names = vec![
        "step-002-tester.json".to_string(),
        "step-002-implementor.json".to_string(),
    ];
    let best = latest_selection(&names, ".json").expect("an entry is found");
    assert_eq!(best, (0, 2, Role::Tester));
}

#[test]
fn step_zero_plans_do_not_advance_progress() {
    let names = vec!["step-000-tester.md".to_string()];
    assert_eq!(detect_plan_progress(&names), (None, 1));
}

#[test]
fn detect_plan_progress_resumes_after_highest_plan() {
    let names = vec![
        "step-001-tester.md".to_string(),
        "step-002-implementor.md".to_string(),
    ];
    assert_eq!(detect_plan_progress(&names), (Some(Role::Implementor), 3));
    assert_eq!(detect_plan_progress(&Vec::new()), (None, 1));
}

#[test]
fn plan_step_budget_caps_at_remaining() {
    assert_eq!(plan_step_budget(3, 10, 1).unwrap(), 3);
    assert_eq!(plan_step_budget(20, 10, 1).unwrap(), 10);
    assert_eq!(plan_step_budget(3, 10, 9).unwrap(), 2);
    assert!(matches!(plan_step_budget(0, 10, 1), Err(StepBudgetError::NoStepsRequested)));
    assert!(matches!(
        plan_step_budget(1, 10, 11),
        Err(StepBudgetError::MaxStepsReached { max_steps: 10 })
    ));
}

#[test]
fn loggers_compute_artifact_paths() {
    let step_logger = StepLogger::new("/ws".to_string(), ".tdd/logs".to_string());
    let entry = sample_log_entry(3, Role::Tester);
    assert_eq!(step_logger.log_file_path(&entry), "/ws/.tdd/logs/step-003-tester.json");

    let bootstrap_logger = BootstrapLogger::new(
        "/ws".to_string(),
        ".tdd/logs".to_string(),
        ".tdd/state/bootstrap.json".to_string(),
    );
    let bootstrap_entry = BootstrapLogEntry {
        command: vec!["sh".to_string(), "script.sh".to_string()],
        working_dir: ".".to_string(),
        skipped: false,
        skip_reason: None,
        exit_code: Some(0),
        stdout: "ok".to_string(),
        stderr: String::new(),
        started_at_ms: 123,
        duration_ms: 5,
    };
    assert_eq!(
        bootstrap_logger.log_file_path(&bootstrap_entry),
        "/ws/.tdd/logs/bootstrap-123.json"
    );
    assert_eq!(bootstrap_logger.state_file_path(), "/ws/.tdd/state/bootstrap.json");
}

#[test]
fn runner_log_copies_outcomes() {
    let summary = RunnerOutcomeSummary::new(
        RunOutcome { code: 0, stdout: "fmt ok".to_string(), stderr: String::new() },
        RunOutcome { code: 1, stdout: String::new(), stderr: "warn".to_string() },
        RunOutcome { code: 0, stdout: "tests ok".to_string(), stderr: String::new() },
    );
    let log = RunnerLog::from_summary(&summary);
    assert_eq!(log.fmt.stdout, "fmt ok");
    assert_eq!(log.check.code, 1);
    assert_eq!(log.check.stderr, "warn");
    assert_eq!(log.test.stdout, "tests ok");
}

#[test]
fn bootstrap_paths_and_reasons() {
    assert_eq!(marker_path("/ws", ".tdd/state/skip"), "/ws/.tdd/state/skip");
    assert_eq!(marker_path("/ws", "/abs/skip"), "/abs/skip");
    assert_eq!(skip_reason_for("/ws/skip"), "skip marker present at /ws/skip");

    let skipped = BootstrapResult::skipped(
        vec!["sh".to_string()],
        "/ws".to_string(),
        "skip marker present at /ws/skip".to_string(),
        7,
    );
    assert!(skipped.skipped);
    assert_eq!(skipped.exit_code, None);
    let entry = BootstrapLogEntry::from_result(&skipped);
    assert!(entry.skipped);
    assert_eq!(entry.started_at_ms, 7);
}

#[test]
fn split_command_separates_program_and_args() {
    let (program, args) =
        split_command(&vec!["sh".to_string(), "-c".to_string(), "true".to_string()]).unwrap();
    assert_eq!(program, "sh");
    assert_eq!(args, vec!["-c".to_string(), "true".to_string()]);
    assert!(split_command(&Vec::new()).is_err());
}

#[test]
fn command_specs_reject_empty_lists() {
    let spec = CommandSpec::from_vec(vec!["cargo".to_string(), "test".to_string()]).unwrap();
    assert_eq!(spec.program, "cargo");
    assert_eq!(spec.args, vec!["test".to_string()]);
    assert!(matches!(
        CommandSpec::from_vec(Vec::new()),
        Err(RunnerError::InvalidCommand(_))
    ));
    assert!(RunnerCommands::from_raw(
        vec!["a".to_string()],
        vec!["b".to_string()],
        Vec::new(),
    )
    .is_err());
}

#[test]
fn truncate_limits_length_with_ellipsis() {
    assert_eq!(truncate("short", 10), "short");
    assert_eq!(truncate("abcdef", 3), "abc\u{2026}");
}

#[test]
fn prompt_messages_carry_context() {
    let ctx = StepContext::new(
        Role::Tester,
        1,
        "Tackle string calculator".to_string(),
        String::new(),
        String::new(),
        vec!["kata.md".to_string()],
    );
    let messages = plan_messages("You are the tester.", &ctx);
    assert_eq!(messages.len(), 2);
    assert_eq!(messages[0].role, MessageRole::System);
    assert_eq!(messages[0].content, "You are the tester.");
    assert_eq!(messages[1].role, MessageRole::User);
    assert!(messages[1].content.contains("Role: tester"));
    assert!(messages[1].content.contains("Step: 1"));
    assert!(messages[1].content.contains("Tackle string calculator"));
    assert!(messages[1].content.contains("- kata.md"));

    let edits = edit_messages("You are the tester.", &ctx, Some("earlier plan"));
    assert!(edits[1].content.contains("Previously proposed plan:"));
    assert!(edits[1].content.contains("earlier plan"));
    assert!(edits[1].content.contains("Apply edits now"));
}

use tdd_machine::commit_policy::{
    extract_kata_goal, format_verification, split_message, CommitMessageInputs, CommitPolicy,
    RunnerOutcomeSummary,
};
use tdd_machine::runner::RunOutcome;
use tdd_machine::step::Role;

fn ok_outcome(stdout: &str) -> RunOutcome {
    RunOutcome { code: 0, stdout: stdout.to_string(), stderr: String::new() }
}

fn sample_summary() -> RunnerOutcomeSummary {
    RunnerOutcomeSummary::new(ok_outcome("fmt ok"), ok_outcome("check ok"), ok_outcome("tests ok"))
}

#[test]
fn formats_commit_with_sections() {
    let policy = CommitPolicy::default();
    let runner_summary = sample_summary();
    let files = vec!["src/lib.rs".to_string(), "tests/lib.rs".to_string()];
    let inputs = CommitMessageInputs {
        role: Role::Tester,
        step_index: 1,
        kata_description: "Implement calculator\nMore details".to_string(),
        agent_commit_message: "test: add failing test\n\nbody".to_string(),
        notes: "Ensure parser supports plus".to_string(),
        files_changed: files,
        plan_path: ".tdd/plan/step-001-tester.md".to_string(),
        runner_outcomes: runner_summary,
    };
    let message = policy.format(&inputs);
    assert!(message.contains("Context:"));
    assert!(message.contains("Diff summary:"));
    assert!(message.contains("Verification:"));
    assert!(message.contains("test: add failing test"));
    assert!(message.contains("src/lib.rs"));
}

#[test]
fn placeholders_for_blank_notes_and_empty_files() {
    let policy = CommitPolicy::default();
    let inputs = CommitMessageInputs {
        role: Role::Implementor,
        step_index: 2,
        kata_description: "Kata".to_string(),
        agent_commit_message: "feat: thing".to_string(),
        notes: String::new(),
        files_changed: Vec::new(),
        plan_path: ".tdd/plan/step-002-implementor.md".to_string(),
        runner_outcomes: sample_summary(),
    };
    let message = policy.format(&inputs);
    assert!(message.contains("Context:"));
    assert!(message.contains("Rationale:"));
    assert!(message.contains("Diff summary:"));
    assert!(message.contains("Verification:"));
    assert!(message.contains("- Agent did not provide additional notes."));
    assert!(message.contains("- No files reported"));
}

#[test]
fn formats_exact_message_for_simple_inputs() {
    let policy = CommitPolicy::default();
    let inputs = CommitMessageInputs {
        role: Role::Tester,
        step_index: 3,
        kata_description: "Practice strings".to_string(),
        agent_commit_message: "test: case".to_string(),
        notes: "one\ntwo".to_string(),
        files_changed: vec!["tests/math.rs".to_string()],
        plan_path: ".tdd/plan/step-003-tester.md".to_string(),
        runner_outcomes: sample_summary(),
    };
    let message = policy.format(&inputs);
    let expected = "test: case\n\nContext:\n- Role: tester\n- Step: 3\n- Kata goal: Practice strings\n- Plan: .tdd/plan/step-003-tester.md\n\nRationale:\n- one\n- two\n\nDiff summary:\n- tests/math.rs\n\nVerification:\n- fmt: exit 0 (fmt ok)\n- check: exit 0 (check ok)\n- test: exit 0 (tests ok)\n";
    assert_eq!(message, expected);
}

#[test]
fn split_message_takes_first_nonblank_line_as_summary() {
    let (summary, body) = split_message("feat: top\n\ndetails here");
    assert_eq!(summary, "feat: top");
    assert_eq!(body.as_deref(), Some("\ndetails here"));

    let (summary2, body2) = split_message("only line");
    assert_eq!(summary2, "only line");
    assert!(body2.is_none());

    let (summary3, body3) = split_message("");
    assert_eq!(summary3, "chore: update");
    assert!(body3.is_none());

    let (summary4, body4) = split_message("\n\n  feat: later  \nbody");
    assert_eq!(summary4, "feat: later");
    assert_eq!(body4.as_deref(), Some("body"));

    let (summary5, body5) = split_message("   \n \t\n");
    assert_eq!(summary5, "chore: update");
    assert!(body5.is_none());
}

#[test]
fn verification_preview_is_truncated() {
    let long_output = "x".repeat(250);
    let summary = RunnerOutcomeSummary::new(
        RunOutcome { code: 0, stdout: long_output, stderr: String::new() },
        ok_outcome(""),
        ok_outcome(""),
    );
    let text = format_verification(&summary);
    let expected_preview = format!("{}\u{2026}", "x".repeat(200));
    assert_eq!(
        text,
        format!("- fmt: exit 0 ({expected_preview})\n- check: exit 0\n- test: exit 0")
    );
}

#[test]
fn kata_goal_is_first_non_blank_line() {
    assert_eq!(extract_kata_goal("\n\n  Implement X  \nmore"), "Implement X");
    assert_eq!(extract_kata_goal("   \n\t\n"), "See kata.md for details");
}

#[test]
fn verification_lines_show_exit_codes_and_previews() {
    let summary = RunnerOutcomeSummary::new(
        ok_outcome("fmt ok"),
        RunOutcome { code: 0, stdout: String::new(), stderr: String::new() },
        RunOutcome { code: -9, stdout: " trimmed ".to_string(), stderr: String::new() },
    );
    let text = format_verification(&summary);
    assert_eq!(text, "- fmt: exit 0 (fmt ok)\n- check: exit 0\n- test: exit -9 (trimmed)");
}

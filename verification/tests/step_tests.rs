use tdd_machine::step::{normalized_sorted_paths, Role, StepContext, StepResult};

#[test]
fn role_cycle_is_fixed() {
    assert_eq!(Role::Tester.next(), Role::Implementor);
    assert_eq!(Role::Implementor.next(), Role::Refactorer);
    assert_eq!(Role::Refactorer.next(), Role::Tester);
}

#[test]
fn role_names_are_stable() {
    assert_eq!(Role::Tester.as_str(), "tester");
    assert_eq!(Role::Implementor.as_str(), "implementor");
    assert_eq!(Role::Refactorer.as_str(), "refactorer");
}

#[test]
fn context_constructor_keeps_fields() {
    let ctx = StepContext::new(
        Role::Tester,
        1,
        "Tackle string calculator".to_string(),
        String::new(),
        String::new(),
        vec!["kata.md".to_string()],
    );
    assert_eq!(ctx.role, Role::Tester);
    assert_eq!(ctx.step_index, 1);
    assert!(ctx.kata_description.contains("calculator"));
    assert!(ctx.git_last_commit_msg.is_empty());
    assert_eq!(ctx.repo_snapshot_paths, vec!["kata.md".to_string()]);
}

#[test]
fn empty_step_result_has_no_changes() {
    let result = StepResult::empty("chore: nothing".to_string());
    assert!(result.files_changed.is_empty());
    assert_eq!(result.commit_message, "chore: nothing");
    assert!(result.notes.is_empty());
}

#[test]
fn paths_are_normalized_and_sorted() {
    let files = vec![
        "src\\lib.rs".to_string(),
        "Cargo.toml".to_string(),
        "src/a.rs".to_string(),
        "kata.md".to_string(),
    ];
    let sorted = normalized_sorted_paths(files);
    assert_eq!(
        sorted,
        vec![
            "Cargo.toml".to_string(),
            "kata.md".to_string(),
            "src/a.rs".to_string(),
            "src/lib.rs".to_string(),
        ]
    );
}

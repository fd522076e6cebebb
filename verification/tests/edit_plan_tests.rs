use tdd_machine::edit_plan::{EditPlan, EditPlanError};

#[test]
fn parses_basic_plan() {
    let raw = r#"{
        "commit_message": "test: add addition test",
        "notes": "Covers + operator",
        "files": [
            {"path": "tests/math.rs", "contents": "fn main() {}"}
        ]
    }"#;
    let plan = EditPlan::parse(raw).expect("expected parse success");
    assert_eq!(plan.commit_message(), "test: add addition test");
    assert_eq!(plan.notes(), "Covers + operator");
    assert_eq!(plan.files().len(), 1);
    assert_eq!(plan.files()[0].path(), "tests/math.rs");
}

#[test]
fn parses_plan_wrapped_in_code_fence() {
    let raw = "```json\n{\n  \"commit_message\": \"refactor: tidy\",\n  \"notes\": \"wrap\",\n  \"files\": [{ \"path\": \"src/lib.rs\", \"contents\": \"pub fn hi() {}\" }]\n}\n```";
    let plan = EditPlan::parse(raw).expect("expected parse success");
    assert_eq!(plan.files()[0].path(), "src/lib.rs");
}

#[test]
fn parse_rejects_paths_that_escape_root() {
    let raw = r#"{
        "commit_message": "chore: unsafe",
        "notes": "",
        "files": [
            {"path": "../secret.txt", "contents": "bad"}
        ]
    }"#;
    let err = EditPlan::parse(raw).unwrap_err();
    assert!(matches!(err, EditPlanError::InvalidPath { .. }));
}

#[test]
fn fenced_and_unfenced_text_parse_alike() {
    let body = "{\n  \"commit_message\": \"feat: x\",\n  \"notes\": \"n\",\n  \"files\": [{ \"path\": \"src/a.rs\", \"contents\": \"A\" }]\n}";
    let fenced = format!("```json\n{body}\n```");
    let from_body = EditPlan::parse(body).expect("body parses");
    let from_fenced = EditPlan::parse(&fenced).expect("fenced parses");
    assert_eq!(from_body, from_fenced);
}

#[test]
fn duplicate_path_fails_naming_that_path() {
    let raw = r#"{
        "commit_message": "feat: dup",
        "files": [
            {"path": "src/a.rs", "contents": "1"},
            {"path": "src/b.rs", "contents": "2"},
            {"path": "src\\a.rs", "contents": "3"}
        ]
    }"#;
    let err = EditPlan::parse(raw).unwrap_err();
    match err {
        EditPlanError::DuplicatePath { path } => assert_eq!(path, "src/a.rs"),
        other => panic!("expected duplicate-path error, got {other:?}"),
    }
}

#[test]
fn absolute_path_rejected_naming_that_path() {
    let raw = r#"{
        "commit_message": "chore: abs",
        "files": [{"path": "/etc/passwd", "contents": "x"}]
    }"#;
    let err = EditPlan::parse(raw).unwrap_err();
    match err {
        EditPlanError::InvalidPath { path } => assert_eq!(path, "/etc/passwd"),
        other => panic!("expected invalid-path error, got {other:?}"),
    }
}

#[test]
fn parent_segment_rejected_after_normalization() {
    let raw = r#"{
        "commit_message": "chore: esc",
        "files": [{"path": "src\\..\\secret", "contents": "x"}]
    }"#;
    let err = EditPlan::parse(raw).unwrap_err();
    match err {
        EditPlanError::InvalidPath { path } => assert_eq!(path, "src/../secret"),
        other => panic!("expected invalid-path error, got {other:?}"),
    }
}

#[test]
fn clean_relative_path_accepted() {
    let raw = r#"{
        "commit_message": "feat: ok",
        "files": [{"path": "src/lib.x", "contents": "pub"}]
    }"#;
    let plan = EditPlan::parse(raw).expect("clean path parses");
    assert_eq!(plan.files()[0].path(), "src/lib.x");
}

#[test]
fn backslash_paths_are_normalized() {
    let raw = r#"{
        "commit_message": "feat: win",
        "files": [{"path": "src\\win.rs", "contents": "w"}]
    }"#;
    let plan = EditPlan::parse(raw).expect("parses");
    assert_eq!(plan.files()[0].path(), "src/win.rs");
}

#[test]
fn empty_file_list_rejected() {
    let raw = r#"{"commit_message": "feat: none", "files": []}"#;
    let err = EditPlan::parse(raw).unwrap_err();
    assert!(matches!(err, EditPlanError::EmptyFiles));
}

#[test]
fn missing_commit_message_rejected() {
    let raw = r#"{"files": [{"path": "src/a.rs", "contents": "1"}]}"#;
    let err = EditPlan::parse(raw).unwrap_err();
    assert!(matches!(err, EditPlanError::MissingCommitMessage));
}

#[test]
fn blank_commit_message_rejected() {
    let raw = r#"{"commit_message": "   ", "files": [{"path": "src/a.rs", "contents": "1"}]}"#;
    let err = EditPlan::parse(raw).unwrap_err();
    assert!(matches!(err, EditPlanError::MissingCommitMessage));
}

#[test]
fn malformed_document_rejected() {
    let err = EditPlan::parse("this is not a structured document").unwrap_err();
    assert!(matches!(err, EditPlanError::InvalidJson));
}

#[test]
fn blank_path_rejected_naming_the_input() {
    let raw = r#"{"commit_message": "m", "files": [{"path": "   ", "contents": "x"}]}"#;
    let err = EditPlan::parse(raw).unwrap_err();
    match err {
        EditPlanError::InvalidPath { path } => assert_eq!(path, "   "),
        other => panic!("expected invalid-path error, got {other:?}"),
    }
}

#[test]
fn notes_default_to_empty_and_are_trimmed() {
    let raw = r#"{"commit_message": "m", "files": [{"path": "src/a.rs", "contents": "1"}]}"#;
    let plan = EditPlan::parse(raw).expect("parses");
    assert_eq!(plan.notes(), "");
    let raw2 = r#"{"commit_message": "m", "notes": "  padded  ", "files": [{"path": "src/a.rs", "contents": "1"}]}"#;
    let plan2 = EditPlan::parse(raw2).expect("parses");
    assert_eq!(plan2.notes(), "padded");
}

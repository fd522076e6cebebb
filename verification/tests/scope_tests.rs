use tdd_machine::edit_plan::EditPlan;
use tdd_machine::scope::{
    check_scope, enforce_implementor_scope, enforce_refactorer_scope, enforce_test_file_scope,
    is_source_path, is_test_path,
};
use tdd_machine::step::Role;

fn plan_for(paths: &[&str]) -> EditPlan {
    let mut entries = Vec::new();
    for path in paths {
        entries.push(format!("{{\"path\": \"{path}\", \"contents\": \"x\"}}"));
    }
    let raw = format!(
        "{{\"commit_message\": \"step\", \"files\": [{}]}}",
        entries.join(", ")
    );
    EditPlan::parse(&raw).expect("test plan parses")
}

#[test]
fn classifies_test_paths() {
    assert!(is_test_path("tests/foo.rs"));
    assert!(is_test_path("crates/x/tests/foo.rs"));
    assert!(is_test_path("src/foo_test.rs"));
    assert!(is_test_path("src/foo_tests.rs"));
    assert!(is_test_path("tests\\win.rs"));
    assert!(!is_test_path("src/lib.rs"));
    assert!(!is_test_path("Cargo.toml"));
}

#[test]
fn classifies_source_paths() {
    assert!(is_source_path("src/lib.rs"));
    assert!(is_source_path("examples/demo.rs"));
    assert!(is_source_path("Cargo.toml"));
    assert!(is_source_path("lib/extra.rs"));
    assert!(!is_source_path("tests/foo.rs"));
    assert!(!is_source_path("README.md"));
}

#[test]
fn tester_plan_touching_source_rejected() {
    let plan = plan_for(&["src/lib.x"]);
    let err = enforce_test_file_scope(&plan).unwrap_err();
    assert!(err.message.contains("tests only"));
    assert!(err.message.contains("src/lib.x"));
}

#[test]
fn tester_plan_touching_tests_accepted() {
    let plan = plan_for(&["tests/foo_test.x"]);
    assert!(enforce_test_file_scope(&plan).is_ok());
}

#[test]
fn implementor_plan_with_six_files_rejected() {
    let plan = plan_for(&[
        "src/a.rs",
        "src/b.rs",
        "src/c.rs",
        "src/d.rs",
        "src/e.rs",
        "src/f.rs",
    ]);
    let err = enforce_implementor_scope(&plan).unwrap_err();
    assert!(err.message.contains("too large"));
}

#[test]
fn implementor_plan_without_source_rejected() {
    let plan = plan_for(&["tests/foo.x"]);
    let err = enforce_implementor_scope(&plan).unwrap_err();
    assert!(err.message.contains("source file"));
}

#[test]
fn implementor_small_source_plan_accepted() {
    let plan = plan_for(&["src/lib.rs", "tests/foo.rs"]);
    assert!(enforce_implementor_scope(&plan).is_ok());
}

#[test]
fn refactorer_plan_touching_tests_rejected() {
    let plan = plan_for(&["src/lib.rs", "tests/foo.rs"]);
    let err = enforce_refactorer_scope(&plan).unwrap_err();
    assert!(err.message.contains("test files"));
    assert!(err.message.contains("tests/foo.rs"));
}

#[test]
fn refactorer_plan_touching_only_source_accepted() {
    let plan = plan_for(&["src/lib.rs", "src/utils.rs"]);
    assert!(enforce_refactorer_scope(&plan).is_ok());
}

#[test]
fn refactorer_plan_with_unclassified_file_rejected() {
    let plan = plan_for(&["README.md"]);
    let err = enforce_refactorer_scope(&plan).unwrap_err();
    assert!(err.message.contains("may only modify Rust source files"));
}

#[test]
fn refactorer_plan_with_six_files_rejected() {
    let plan = plan_for(&[
        "src/a.rs",
        "src/b.rs",
        "src/c.rs",
        "src/d.rs",
        "src/e.rs",
        "src/f.rs",
    ]);
    let err = enforce_refactorer_scope(&plan).unwrap_err();
    assert!(err.message.contains("too many files"));
}

#[test]
fn check_scope_dispatches_by_role() {
    let test_plan = plan_for(&["tests/foo.rs"]);
    let source_plan = plan_for(&["src/lib.rs"]);
    assert!(check_scope(Role::Tester, &test_plan).is_ok());
    assert!(check_scope(Role::Tester, &source_plan).is_err());
    assert!(check_scope(Role::Implementor, &source_plan).is_ok());
    assert!(check_scope(Role::Implementor, &test_plan).is_err());
    assert!(check_scope(Role::Refactorer, &source_plan).is_ok());
    assert!(check_scope(Role::Refactorer, &test_plan).is_err());
}

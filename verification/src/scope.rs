//! Path classification and per-role scope policy.
//!
//! A tester may only touch test paths; an implementor must touch at least
//! one production-source path and at most five files; a refactorer may touch
//! only production-source paths, no test paths, and at most five files.
//! Rejections name the offending path or rule.

use vstd::prelude::*;

use crate::edit_plan::{EditPlan, FileEditView};
use crate::step::Role;
use crate::text::{
    chars_eq, ends_with_chars, contains_chars, replace_chars, spec_contains, spec_ends_with,
    spec_replace, spec_starts_with, starts_with_chars, to_chars,
};

verus! {

/// Whether a normalized path is recognised as a test path.
pub open spec fn spec_test_path_marks(n: Seq<char>) -> bool {
    ||| spec_starts_with(n, "tests/"@)
    ||| spec_contains(n, "/tests/"@)
    ||| spec_ends_with(n, "_test.rs"@)
    ||| spec_ends_with(n, "_tests.rs"@)
    ||| spec_ends_with(n, "test.rs"@)
    ||| spec_contains(n, "/test/"@)
}

/// Whether a path (any separators) is a test path.
pub open spec fn spec_is_test_path(p: Seq<char>) -> bool {
    spec_test_path_marks(spec_replace(p, '\\', '/'))
}

/// Whether a normalized path is recognised as a production-source path.
pub open spec fn spec_source_path_marks(n: Seq<char>) -> bool {
    ||| spec_starts_with(n, "src/"@)
    ||| spec_starts_with(n, "examples/"@)
    ||| n == "Cargo.toml"@
    ||| (spec_ends_with(n, ".rs"@) && !spec_test_path_marks(n))
}

/// Whether a path (any separators) is a production-source path.
pub open spec fn spec_is_source_path(p: Seq<char>) -> bool {
    spec_source_path_marks(spec_replace(p, '\\', '/'))
}

fn test_path_marks(n: &Vec<char>) -> (r: bool)
    ensures
        r == spec_test_path_marks(n@),
{
    let tests_prefix = to_chars("tests/");
    let tests_infix = to_chars("/tests/");
    let test_suffix1 = to_chars("_test.rs");
    let test_suffix2 = to_chars("_tests.rs");
    let test_suffix3 = to_chars("test.rs");
    let test_infix = to_chars("/test/");
    starts_with_chars(n, &tests_prefix) || contains_chars(n, &tests_infix) || ends_with_chars(
        n,
        &test_suffix1,
    ) || ends_with_chars(n, &test_suffix2) || ends_with_chars(n, &test_suffix3) || contains_chars(
        n,
        &test_infix,
    )
}

/// Determine whether the provided path targets a test file.
pub fn is_test_path(path: &str) -> (r: bool)
    ensures
        r == spec_is_test_path(path@),
{
    let chars = to_chars(path);
    let normalized = replace_chars(&chars, '\\', '/');
    test_path_marks(&normalized)
}

/// Determine whether a path targets production source files.
pub fn is_source_path(path: &str) -> (r: bool)
    ensures
        r == spec_is_source_path(path@),
{
    let chars = to_chars(path);
    let normalized = replace_chars(&chars, '\\', '/');
    let src_prefix = to_chars("src/");
    let examples_prefix = to_chars("examples/");
    let manifest = to_chars("Cargo.toml");
    let rs_suffix = to_chars(".rs");
    starts_with_chars(&normalized, &src_prefix) || starts_with_chars(&normalized, &examples_prefix)
        || chars_eq(&normalized, &manifest) || (ends_with_chars(&normalized, &rs_suffix)
        && !test_path_marks(&normalized))
}

/// A plan rejected by the scope policy, with a human-readable reason naming
/// the offending path or rule.
#[derive(Debug)]
pub struct ScopeError {
    pub message: String,
}

/// The tester rule applied to each file in order: the first non-test path is
/// rejected.
pub open spec fn spec_tester_scope_files(files: Seq<FileEditView>) -> Result<(), Seq<char>>
    decreases files.len(),
{
    if files.len() == 0 {
        Ok(())
    } else if !spec_is_test_path(files[0].path) {
        Err("Tester edits must touch tests only (got "@ + files[0].path + ")"@)
    } else {
        spec_tester_scope_files(files.drop_first())
    }
}

/// The tester scope rule: a non-empty plan touching test paths only.
pub open spec fn spec_tester_scope(files: Seq<FileEditView>) -> Result<(), Seq<char>> {
    if files.len() == 0 {
        Err("Tester plans must include at least one test file edit"@)
    } else {
        spec_tester_scope_files(files)
    }
}

/// The implementor scope rule: at least one production-source path, and at
/// most five files.
pub open spec fn spec_implementor_scope(files: Seq<FileEditView>) -> Result<(), Seq<char>> {
    if !(exists|i: int| 0 <= i < files.len() && spec_is_source_path(files[i].path)) {
        Err("Implementor must modify at least one source file"@)
    } else if files.len() > 5 {
        Err("Implementor plan is too large; limit edits to at most 5 files"@)
    } else {
        Ok(())
    }
}

/// The refactorer rule applied to each file in order: the first test path,
/// or the first path that is not production source, is rejected.
pub open spec fn spec_refactorer_scope_files(files: Seq<FileEditView>) -> Result<(), Seq<char>>
    decreases files.len(),
{
    if files.len() == 0 {
        Ok(())
    } else if spec_is_test_path(files[0].path) {
        Err("Refactorer cannot modify test files ("@ + files[0].path + ")."@)
    } else if !spec_is_source_path(files[0].path) {
        Err("Refactorer may only modify Rust source files ("@ + files[0].path + ")."@)
    } else {
        spec_refactorer_scope_files(files.drop_first())
    }
}

/// The refactorer scope rule: a non-empty plan of at most five files, none a
/// test path, all production source.
pub open spec fn spec_refactorer_scope(files: Seq<FileEditView>) -> Result<(), Seq<char>> {
    if files.len() == 0 {
        Err("Refactorer plans must modify at least one source file"@)
    } else if files.len() > 5 {
        Err("Refactorer plan touches too many files; limit to 5"@)
    } else {
        spec_refactorer_scope_files(files)
    }
}

/// The scope rule of the given role.
pub open spec fn spec_scope_check(role: Role, files: Seq<FileEditView>) -> Result<(), Seq<char>> {
    match role {
        Role::Tester => spec_tester_scope(files),
        Role::Implementor => spec_implementor_scope(files),
        Role::Refactorer => spec_refactorer_scope(files),
    }
}

/// The result of a scope check agrees with its rule.
pub open spec fn scope_result_matches(
    expected: Result<(), Seq<char>>,
    r: Result<(), ScopeError>,
) -> bool {
    match (expected, r) {
        (Ok(()), Ok(())) => true,
        (Err(m), Err(e)) => e.message@ == m,
        _ => false,
    }
}

/// Tester plans may only touch test files.
pub fn enforce_test_file_scope(plan: &EditPlan) -> (r: Result<(), ScopeError>)
    ensures
        scope_result_matches(spec_tester_scope(plan@.files), r),
{
    let files = plan.files();
    if files.len() == 0 {
        return Err(ScopeError {
            message: String::from_str("Tester plans must include at least one test file edit"),
        });
    }
    let ghost gfiles = plan@.files;
    let n = files.len();
    let mut i: usize = 0;
    proof {
        assert(gfiles.subrange(0, gfiles.len() as int) =~= gfiles);
    }
    while i < n
        invariant
            i <= n,
            n == gfiles.len(),
            gfiles == plan@.files,
            crate::edit_plan::file_views(files@) == gfiles,
            files@.len() == n,
            spec_tester_scope_files(gfiles) == spec_tester_scope_files(
                gfiles.subrange(i as int, n as int),
            ),
        decreases n - i,
    {
        proof {
            assert(crate::edit_plan::file_views(files@)[i as int] == files@[i as int]@);
            assert(gfiles.subrange(i as int, n as int)[0] == gfiles[i as int]);
        }
        if !is_test_path(files[i].path()) {
            let mut message = String::from_str("Tester edits must touch tests only (got ");
            message.append(files[i].path());
            message.append(")");
            proof {
                let sub = gfiles.subrange(i as int, n as int);
                assert(!spec_is_test_path(sub[0].path));
                assert(message@ == "Tester edits must touch tests only (got "@
                    + gfiles[i as int].path + ")"@);
                assert(spec_tester_scope_files(sub) == Err::<(), Seq<char>>(
                    "Tester edits must touch tests only (got "@ + sub[0].path + ")"@,
                ));
                assert(spec_tester_scope(plan@.files) == Err::<(), Seq<char>>(message@));
            }
            return Err(ScopeError { message });
        }
        proof {
            assert(gfiles.subrange(i as int, n as int).drop_first() =~= gfiles.subrange(
                i + 1,
                n as int,
            ));
        }
        i = i + 1;
    }
    proof {
        assert(gfiles.subrange(n as int, n as int).len() == 0);
    }
    Ok(())
}

/// Implementor plans must touch production source and stay small.
pub fn enforce_implementor_scope(plan: &EditPlan) -> (r: Result<(), ScopeError>)
    ensures
        scope_result_matches(spec_implementor_scope(plan@.files), r),
{
    let files = plan.files();
    let ghost gfiles = plan@.files;
    let n = files.len();
    let mut found = false;
    let mut i: usize = 0;
    while i < n
        invariant
            i <= n,
            n == gfiles.len(),
            gfiles == plan@.files,
            crate::edit_plan::file_views(files@) == gfiles,
            files@.len() == n,
            found == exists|j: int| 0 <= j < i && spec_is_source_path(gfiles[j].path),
        decreases n - i,
    {
        proof {
            assert(crate::edit_plan::file_views(files@)[i as int] == files@[i as int]@);
        }
        if is_source_path(files[i].path()) {
            found = true;
        }
        i = i + 1;
    }
    if !found {
        return Err(ScopeError {
            message: String::from_str("Implementor must modify at least one source file"),
        });
    }
    if files.len() > 5 {
        return Err(ScopeError {
            message: String::from_str(
                "Implementor plan is too large; limit edits to at most 5 files",
            ),
        });
    }
    Ok(())
}

/// Refactorer plans may only touch production source, never tests.
pub fn enforce_refactorer_scope(plan: &EditPlan) -> (r: Result<(), ScopeError>)
    ensures
        scope_result_matches(spec_refactorer_scope(plan@.files), r),
{
    let files = plan.files();
    if files.len() == 0 {
        return Err(ScopeError {
            message: String::from_str("Refactorer plans must modify at least one source file"),
        });
    }
    if files.len() > 5 {
        return Err(ScopeError {
            message: String::from_str("Refactorer plan touches too many files; limit to 5"),
        });
    }
    let ghost gfiles = plan@.files;
    let n = files.len();
    let mut i: usize = 0;
    proof {
        assert(gfiles.subrange(0, gfiles.len() as int) =~= gfiles);
    }
    while i < n
        invariant
            i <= n,
            n == gfiles.len(),
            gfiles == plan@.files,
            crate::edit_plan::file_views(files@) == gfiles,
            files@.len() == n,
            1 <= n <= 5,
            spec_refactorer_scope_files(gfiles) == spec_refactorer_scope_files(
                gfiles.subrange(i as int, n as int),
            ),
        decreases n - i,
    {
        proof {
            assert(crate::edit_plan::file_views(files@)[i as int] == files@[i as int]@);
            assert(gfiles.subrange(i as int, n as int)[0] == gfiles[i as int]);
        }
        if is_test_path(files[i].path()) {
            let mut message = String::from_str("Refactorer cannot modify test files (");
            message.append(files[i].path());
            message.append(").");
            proof {
                let sub = gfiles.subrange(i as int, n as int);
                assert(spec_is_test_path(sub[0].path));
                assert(message@ == "Refactorer cannot modify test files ("@
                    + gfiles[i as int].path + ")."@);
                assert(spec_refactorer_scope_files(sub) == Err::<(), Seq<char>>(
                    "Refactorer cannot modify test files ("@ + sub[0].path + ")."@,
                ));
                assert(spec_refactorer_scope(plan@.files) == Err::<(), Seq<char>>(message@));
            }
            return Err(ScopeError { message });
        }
        if !is_source_path(files[i].path()) {
            let mut message = String::from_str("Refactorer may only modify Rust source files (");
            message.append(files[i].path());
            message.append(").");
            proof {
                let sub = gfiles.subrange(i as int, n as int);
                assert(!spec_is_source_path(sub[0].path));
                assert(message@ == "Refactorer may only modify Rust source files ("@
                    + gfiles[i as int].path + ")."@);
                assert(spec_refactorer_scope_files(sub) == Err::<(), Seq<char>>(
                    "Refactorer may only modify Rust source files ("@ + sub[0].path + ")."@,
                ));
                assert(spec_refactorer_scope(plan@.files) == Err::<(), Seq<char>>(message@));
            }
            return Err(ScopeError { message });
        }
        proof {
            assert(gfiles.subrange(i as int, n as int).drop_first() =~= gfiles.subrange(
                i + 1,
                n as int,
            ));
        }
        i = i + 1;
    }
    proof {
        assert(gfiles.subrange(n as int, n as int).len() == 0);
    }
    Ok(())
}

/// The scope rule of the given role, applied to a plan.
pub fn check_scope(role: Role, plan: &EditPlan) -> (r: Result<(), ScopeError>)
    ensures
        scope_result_matches(spec_scope_check(role, plan@.files), r),
{
    match role {
        Role::Tester => enforce_test_file_scope(plan),
        Role::Implementor => enforce_implementor_scope(plan),
        Role::Refactorer => enforce_refactorer_scope(plan),
    }
}

} // verus!

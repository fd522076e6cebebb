//! Edit-plan parsing and validation.
//!
//! An agent's edit response is a structured document holding a commit
//! message, optional notes and a non-empty list of file edits.  Parsing
//! strips a surrounding markdown fence, decodes the document and validates
//! it: every path is normalized, workspace-relative, free of
//! parent-directory traversal, and unique.  This is the trust boundary for
//! model-generated edits: everything is checked here before any write.

use vstd::prelude::*;

use crate::text::{
    chars_eq, from_chars, is_space, join_chars, lines_chars, spec_join, spec_lines,
    spec_strip_cr,
    spec_replace, spec_split, spec_starts_with, spec_trim, spec_trim_start, replace_chars,
    split_chars, starts_with_chars, to_chars, trim_chars, trim_start_chars,
};

verus! {

/// View of one file edit: a path and the full new contents.
pub struct FileEditView {
    pub path: Seq<char>,
    pub contents: Seq<char>,
}

/// View of a decoded plan document before validation.
pub struct PlanDocView {
    pub commit_message: Option<Seq<char>>,
    pub notes: Option<Seq<char>>,
    pub files: Seq<FileEditView>,
}

/// View of a validated edit plan.
pub struct PlanView {
    pub commit_message: Seq<char>,
    pub notes: Seq<char>,
    pub files: Seq<FileEditView>,
}

/// View of a parse failure.
pub enum PlanErrorView {
    InvalidJson,
    EmptyFiles,
    MissingCommitMessage,
    InvalidPath(Seq<char>),
    DuplicatePath(Seq<char>),
    Io(Seq<char>, Seq<char>),
}

/// Single file edit operation in a plan.
#[derive(Debug, Clone, PartialEq, Eq)]
pub struct FileEdit {
    path: String,
    contents: String,
}

impl View for FileEdit {
    type V = FileEditView;

    closed spec fn view(&self) -> FileEditView {
        FileEditView { path: self.path@, contents: self.contents@ }
    }
}

impl FileEdit {
    pub fn path(&self) -> (r: &str)
        ensures
            r@ == self@.path,
    {
        self.path.as_str()
    }

    pub fn contents(&self) -> (r: &str)
        ensures
            r@ == self@.contents,
    {
        self.contents.as_str()
    }
}

/// The views of a list of file edits.
pub open spec fn file_views(s: Seq<FileEdit>) -> Seq<FileEditView> {
    s.map_values(|f: FileEdit| f@)
}

/// Structured representation of a plan returned by the model.
#[derive(Debug, Clone, PartialEq, Eq)]
pub struct EditPlan {
    commit_message: String,
    notes: String,
    files: Vec<FileEdit>,
}

impl View for EditPlan {
    type V = PlanView;

    closed spec fn view(&self) -> PlanView {
        PlanView {
            commit_message: self.commit_message@,
            notes: self.notes@,
            files: file_views(self.files@),
        }
    }
}

/// Reasons a raw plan text is rejected, or a write fails.
#[derive(Debug)]
pub enum EditPlanError {
    InvalidJson,
    EmptyFiles,
    MissingCommitMessage,
    InvalidPath { path: String },
    DuplicatePath { path: String },
    Io { path: String, message: String },
}

/// The view of a parse or apply failure.
pub open spec fn error_view(e: EditPlanError) -> PlanErrorView {
    match e {
        EditPlanError::InvalidJson => PlanErrorView::InvalidJson,
        EditPlanError::EmptyFiles => PlanErrorView::EmptyFiles,
        EditPlanError::MissingCommitMessage => PlanErrorView::MissingCommitMessage,
        EditPlanError::InvalidPath { path } => PlanErrorView::InvalidPath(path@),
        EditPlanError::DuplicatePath { path } => PlanErrorView::DuplicatePath(path@),
        EditPlanError::Io { path, message } => PlanErrorView::Io(path@, message@),
    }
}

/// Decoded but not yet validated plan document.
pub struct RawPlanParts {
    pub commit_message: Option<String>,
    pub notes: Option<String>,
    pub files: Vec<FileEdit>,
}

/// The view of a decoded document.
pub open spec fn raw_view(r: RawPlanParts) -> PlanDocView {
    PlanDocView {
        commit_message: match r.commit_message {
            Some(s) => Some(s@),
            None => None,
        },
        notes: match r.notes {
            Some(s) => Some(s@),
            None => None,
        },
        files: file_views(r.files@),
    }
}

/// What the document decoder returns for a given text.  The decoder accepts
/// a structured document with an optional string `commit_message`, optional
/// string `notes` and a `files` array of path/contents string pairs; which
/// texts decode, and to what, is a function of the text alone and is left
/// uninterpreted.
pub uninterp spec fn decoded_plan(s: Seq<char>) -> Option<PlanDocView>;

/// Relies on `serde_json::from_str` and the `Value` accessors: decodes the
/// edit-plan document.  The result depends on the text alone, so it is named
/// by `decoded_plan`; nothing else is assumed about it.
#[verifier::external_body]
fn decode_plan_document(s: &str) -> (r: Option<RawPlanParts>)
    ensures
        r is Some <==> decoded_plan(s@) is Some,
        r matches Some(d) ==> decoded_plan(s@) == Some(raw_view(d)),
{
    let v: serde_json::Value = serde_json::from_str(s).ok()?;
    let commit_message = v.get("commit_message").and_then(|c| c.as_str()).map(str::to_string);
    let notes = v.get("notes").and_then(|c| c.as_str()).map(str::to_string);
    let mut files = Vec::new();
    for f in v.get("files")?.as_array()? {
        let path = f.get("path")?.as_str()?.to_string();
        let contents = f.get("contents")?.as_str()?.to_string();
        files.push(FileEdit { path, contents });
    }
    Some(RawPlanParts { commit_message, notes, files })
}

/// The raw model text with a surrounding markdown fence removed: the text is
/// trimmed; if it starts with a fence marker, the first line and a closing
/// fence line are dropped and the remainder is joined and trimmed again.
pub open spec fn spec_sanitize(raw: Seq<char>) -> Seq<char> {
    let t = spec_trim(raw);
    if !spec_starts_with(t, "```"@) {
        t
    } else {
        let ls = spec_lines(t);
        let ls1 = if ls.len() > 0 {
            ls.drop_first()
        } else {
            ls
        };
        let ls2 = if ls1.len() > 0 && spec_starts_with(spec_trim_start(ls1.last()), "```"@) {
            ls1.drop_last()
        } else {
            ls1
        };
        spec_trim(spec_join(ls2, '\n'))
    }
}

/// Strip a leading and trailing fenced code block, if present.
pub fn sanitize_raw_plan(raw: &str) -> (r: String)
    ensures
        r@ == spec_sanitize(raw@),
{
    let chars = to_chars(raw);
    let trimmed = trim_chars(&chars);
    let fence = to_chars("```");
    if !starts_with_chars(&trimmed, &fence) {
        return from_chars(&trimmed);
    }
    let mut ls = lines_chars(&trimmed);
    let ghost gl = spec_lines(trimmed@);
    if ls.len() > 0 {
        let _first = ls.remove(0);
        proof {
            assert(crate::text::charvecs_view(ls@) =~= gl.drop_first());
        }
    }
    let ghost gl1 = if gl.len() > 0 { gl.drop_first() } else { gl };
    if ls.len() > 0 {
        let last_trimmed = trim_start_chars(&ls[ls.len() - 1]);
        proof {
            assert(crate::text::charvecs_view(ls@).last() == ls@.last()@);
        }
        if starts_with_chars(&last_trimmed, &fence) {
            let _last = ls.pop();
            proof {
                assert(crate::text::charvecs_view(ls@) =~= gl1.drop_last());
            }
        }
    }
    let joined = join_chars(&ls, '\n');
    let out = trim_chars(&joined);
    from_chars(&out)
}

/// A normalized path: trimmed, backslashes replaced.  Rejected (with the
/// path named in the error) when empty, absolute, or holding a
/// parent-directory segment.
pub open spec fn spec_normalize_path(input: Seq<char>) -> Result<Seq<char>, Seq<char>> {
    let t = spec_trim(input);
    if t.len() == 0 {
        Err(input)
    } else {
        let n = spec_replace(t, '\\', '/');
        if spec_starts_with(n, "/"@) || spec_has_parent_segment(n) {
            Err(n)
        } else {
            Ok(n)
        }
    }
}

/// Some `/`-separated segment of the path is the parent-directory marker.
pub open spec fn spec_has_parent_segment(n: Seq<char>) -> bool {
    exists|i: int|
        0 <= i < spec_split(n, '/').len() && spec_split(n, '/')[i] == ".."@
}

/// Normalize one edit path, rejecting paths that could escape the workspace.
pub fn normalize_path(input: &str) -> (r: Result<String, EditPlanError>)
    ensures
        match (spec_normalize_path(input@), r) {
            (Ok(n), Ok(s)) => s@ == n,
            (Err(p), Err(e)) => e matches EditPlanError::InvalidPath { path } && path@ == p,
            _ => false,
        },
{
    let chars = to_chars(input);
    let trimmed = trim_chars(&chars);
    if trimmed.len() == 0 {
        return Err(EditPlanError::InvalidPath { path: from_chars(&chars) });
    }
    let normalized = replace_chars(&trimmed, '\\', '/');
    let slash = to_chars("/");
    let dotdot = to_chars("..");
    let mut escape = starts_with_chars(&normalized, &slash);
    let segments = split_chars(&normalized, '/');
    let n_segments = segments.len();
    let ghost gsegs = spec_split(normalized@, '/');
    let mut i: usize = 0;
    while i < n_segments
        invariant
            i <= n_segments,
            n_segments == gsegs.len(),
            crate::text::charvecs_view(segments@) == gsegs,
            segments@.len() == n_segments,
            dotdot@ == ".."@,
            escape == (spec_starts_with(spec_replace(spec_trim(input@), '\\', '/'), "/"@)
                || exists|j: int| 0 <= j < i && gsegs[j] == ".."@),
            normalized@ == spec_replace(spec_trim(input@), '\\', '/'),
        decreases n_segments - i,
    {
        proof {
            assert(crate::text::charvecs_view(segments@)[i as int] == segments@[i as int]@);
        }
        if chars_eq(&segments[i], &dotdot) {
            escape = true;
        }
        i = i + 1;
    }
    if escape {
        return Err(EditPlanError::InvalidPath { path: from_chars(&normalized) });
    }
    proof {
        assert(!spec_has_parent_segment(normalized@));
    }
    Ok(from_chars(&normalized))
}

/// Validation of the file list, in order: each path normalized, then checked
/// against the paths already accepted; the first failure wins.
pub open spec fn spec_validated_files(files: Seq<FileEditView>, acc: Seq<FileEditView>) -> Result<
    Seq<FileEditView>,
    PlanErrorView,
>
    decreases files.len(),
{
    if files.len() == 0 {
        Ok(acc)
    } else {
        match spec_normalize_path(files[0].path) {
            Err(p) => Err(PlanErrorView::InvalidPath(p)),
            Ok(n) => {
                if spec_paths_contain(acc, n) {
                    Err(PlanErrorView::DuplicatePath(n))
                } else {
                    spec_validated_files(
                        files.drop_first(),
                        acc.push(FileEditView { path: n, contents: files[0].contents }),
                    )
                }
            },
        }
    }
}

pub open spec fn spec_paths_contain(acc: Seq<FileEditView>, p: Seq<char>) -> bool {
    exists|i: int| 0 <= i < acc.len() && acc[i].path == p
}

/// Validation of a decoded document: a non-blank commit message is required,
/// the file list must be non-empty, notes default to empty, and every path
/// must normalize and be unique.
pub open spec fn spec_validate(doc: PlanDocView) -> Result<PlanView, PlanErrorView> {
    let cm = match doc.commit_message {
        Some(m) => spec_trim(m),
        None => Seq::empty(),
    };
    if cm.len() == 0 {
        Err(PlanErrorView::MissingCommitMessage)
    } else if doc.files.len() == 0 {
        Err(PlanErrorView::EmptyFiles)
    } else {
        let notes = match doc.notes {
            Some(n) => spec_trim(n),
            None => Seq::empty(),
        };
        match spec_validated_files(doc.files, Seq::empty()) {
            Ok(files) => Ok(PlanView { commit_message: cm, notes, files }),
            Err(e) => Err(e),
        }
    }
}

/// What parsing a raw model text yields: the sanitized text is decoded, a
/// failed decode is the malformed-document error, and a decoded document is
/// validated.
pub open spec fn spec_parse(raw: Seq<char>) -> Result<PlanView, PlanErrorView> {
    match decoded_plan(spec_sanitize(raw)) {
        None => Err(PlanErrorView::InvalidJson),
        Some(doc) => spec_validate(doc),
    }
}

/// The result of `parse` agrees with `spec_parse`.
pub open spec fn parse_result_matches(raw: Seq<char>, r: Result<EditPlan, EditPlanError>) -> bool {
    match (spec_parse(raw), r) {
        (Ok(v), Ok(plan)) => plan@.commit_message == v.commit_message && plan@.notes == v.notes
            && plan@.files == v.files,
        (Err(ev), Err(e)) => error_view(e) == ev,
        _ => false,
    }
}

/// Wrapping a plan in a fenced code block changes nothing: for any body
/// that is trimmed, non-empty, does not itself start with a fence marker
/// and holds no carriage return, parsing the fenced form yields the same
/// result as parsing the body alone.  (A body with a carriage return can
/// parse differently, because unfencing normalizes line endings.)
pub proof fn lemma_fenced_parse_unchanged(lang: Seq<char>, body: Seq<char>)
    requires
        spec_trim(body) == body,
        body.len() > 0,
        !spec_starts_with(body, "```"@),
        forall|i: int| 0 <= i < lang.len() ==> lang[i] != '\n',
        forall|i: int| 0 <= i < body.len() ==> body[i] != '\r',
    ensures
        spec_parse("```"@ + lang + "\n"@ + body + "\n```"@) == spec_parse(body),
{
    reveal_strlit("```");
    reveal_strlit("\n");
    reveal_strlit("\n```");
    let fence = "```"@;
    let first = fence + lang;
    let fenced = fence + lang + "\n"@ + body + "\n```"@;
    assert(fence.len() == 3 && fence[0] == '`' && fence[1] == '`' && fence[2] == '`');
    assert("\n"@ =~= seq!['\n']);
    assert("\n```"@ =~= seq!['\n'] + fence);
    // The fenced text is already trimmed: both ends are backticks.
    assert(fenced[0] == '`');
    assert(fenced.last() == '`');
    assert(!is_space('`'));
    crate::text::lemma_trim_id(fenced);
    assert(spec_trim(fenced) == fenced);
    assert(fenced.subrange(0, 3) =~= fence);
    assert(spec_starts_with(fenced, fence));
    // Split decomposition: the first line, the body's segments, the
    // closing fence line.
    let tail = body + seq!['\n'] + fence;
    assert(fenced =~= first + seq!['\n'] + tail);
    crate::text::lemma_split_append(first, tail, '\n');
    assert(forall|i: int| 0 <= i < first.len() ==> first[i] != '\n');
    crate::text::lemma_split_no_sep(first, '\n');
    crate::text::lemma_split_append(body, fence, '\n');
    assert(forall|i: int| 0 <= i < fence.len() ==> fence[i] != '\n');
    crate::text::lemma_split_no_sep(fence, '\n');
    let sb = spec_split(body, '\n');
    crate::text::lemma_split_len(body, '\n');
    let segs = spec_split(fenced, '\n');
    assert(segs =~= seq![first] + sb + seq![fence]);
    // Lines: the closing fence line is last and non-empty, every body
    // segment is free of carriage returns, so nothing is stripped there.
    crate::text::lemma_split_no_char(body, '\n', '\r');
    let stripped = Seq::new(
        segs.len(),
        |i: int| if i < segs.len() - 1 { spec_strip_cr(segs[i]) } else { segs[i] },
    );
    assert forall|i: int| 0 <= i < stripped.len() implies stripped[i] == (seq![
        spec_strip_cr(first),
    ] + sb + seq![fence])[i] by {
        if i == 0 {
            assert(segs[0] == first);
        } else if i < segs.len() - 1 {
            assert(segs[i] == sb[i - 1]);
            if sb[i - 1].len() > 0 {
                assert(sb[i - 1].last() != '\r');
            }
            assert(spec_strip_cr(sb[i - 1]) == sb[i - 1]);
        } else {
            assert(segs[i] == fence);
        }
    }
    assert(stripped =~= seq![spec_strip_cr(first)] + sb + seq![fence]);
    assert(stripped.last() == fence);
    assert(stripped.last().len() == 3);
    let ls = spec_lines(fenced);
    assert(ls == stripped);
    assert(ls.len() > 0);
    let ls1 = ls.drop_first();
    assert(ls1 =~= sb + seq![fence]);
    assert(ls1.len() > 0);
    assert(ls1.last() == fence);
    assert(spec_trim_start(fence) == fence);
    assert(fence.subrange(0, 3) =~= fence);
    assert(spec_starts_with(fence, fence));
    let ls2 = ls1.drop_last();
    assert(ls2 =~= sb);
    crate::text::lemma_join_split(body, '\n');
    assert(spec_join(sb, '\n') == body);
    assert(spec_sanitize(fenced) == spec_trim(body));
    assert(spec_sanitize(fenced) == body);
    assert(spec_sanitize(body) == body);
}

/// The normalized path, or the path named by the rejection.
pub open spec fn norm_val(p: Seq<char>) -> Seq<char> {
    match spec_normalize_path(p) {
        Ok(n) => n,
        Err(e) => e,
    }
}

/// The first `j` file entries with their paths normalized.
pub open spec fn normed_files(files: Seq<FileEditView>, j: int) -> Seq<FileEditView> {
    Seq::new(
        j as nat,
        |k: int| FileEditView { path: norm_val(files[k].path), contents: files[k].contents },
    )
}

/// A path that is empty after trimming, absolute, or holding a
/// parent-directory segment is always rejected by normalization.
pub proof fn lemma_path_escape_rejected(input: Seq<char>)
    requires
        spec_starts_with(spec_replace(spec_trim(input), '\\', '/'), "/"@) || spec_has_parent_segment(
            spec_replace(spec_trim(input), '\\', '/'),
        ),
    ensures
        spec_normalize_path(input) is Err,
{
}

/// A path that is non-blank, relative and free of parent-directory segments
/// is always accepted, normalized.
pub proof fn lemma_clean_path_accepted(input: Seq<char>)
    requires
        spec_trim(input).len() > 0,
        !spec_starts_with(spec_replace(spec_trim(input), '\\', '/'), "/"@),
        !spec_has_parent_segment(spec_replace(spec_trim(input), '\\', '/')),
    ensures
        spec_normalize_path(input) == Ok::<Seq<char>, Seq<char>>(
            spec_replace(spec_trim(input), '\\', '/'),
        ),
{
}

/// While every path normalizes and no duplicate appears, validation simply
/// accumulates the normalized entries.
proof fn lemma_validated_files_skip(files: Seq<FileEditView>, acc: Seq<FileEditView>, j: int)
    requires
        0 <= j <= files.len(),
        forall|k: int| 0 <= k < j ==> spec_normalize_path(#[trigger] files[k].path) is Ok,
        forall|k: int|
            0 <= k < j ==> !spec_paths_contain(
                acc + normed_files(files, k),
                norm_val(#[trigger] files[k].path),
            ),
    ensures
        spec_validated_files(files, acc) == spec_validated_files(
            files.subrange(j, files.len() as int),
            acc + normed_files(files, j),
        ),
    decreases j,
{
    if j == 0 {
        assert(files.subrange(0, files.len() as int) =~= files);
        assert(acc + normed_files(files, 0) =~= acc);
    } else {
        lemma_validated_files_skip(files, acc, j - 1);
        let rest = files.subrange(j - 1, files.len() as int);
        let acc1 = acc + normed_files(files, j - 1);
        assert(rest.len() > 0);
        assert(rest[0] == files[j - 1]);
        let n = norm_val(files[j - 1].path);
        assert(spec_normalize_path(rest[0].path) == Ok::<Seq<char>, Seq<char>>(n));
        assert(!spec_paths_contain(acc1, n));
        assert(spec_validated_files(rest, acc1) == spec_validated_files(
            rest.drop_first(),
            acc1.push(FileEditView { path: n, contents: rest[0].contents }),
        ));
        assert(rest.drop_first() =~= files.subrange(j, files.len() as int));
        assert(acc1.push(FileEditView { path: n, contents: files[j - 1].contents }) =~= acc
            + normed_files(files, j));
    }
}

proof fn lemma_validated_files_distinct(files: Seq<FileEditView>, acc: Seq<FileEditView>)
    requires
        spec_validated_files(files, acc) is Ok,
        forall|i: int, j: int|
            0 <= i < j < acc.len() ==> #[trigger] acc[i].path != #[trigger] acc[j].path,
    ensures
        forall|i: int, j: int|
            0 <= i < j < spec_validated_files(files, acc).get_Ok_0().len()
                ==> #[trigger] spec_validated_files(files, acc).get_Ok_0()[i].path
                != #[trigger] spec_validated_files(files, acc).get_Ok_0()[j].path,
    decreases files.len(),
{
    if files.len() == 0 {
    } else {
        let n = norm_val(files[0].path);
        assert(spec_normalize_path(files[0].path) is Ok);
        assert(!spec_paths_contain(acc, n));
        let acc2 = acc.push(FileEditView { path: n, contents: files[0].contents });
        assert forall|i: int, j: int| 0 <= i < j < acc2.len() implies #[trigger] acc2[i].path
            != #[trigger] acc2[j].path by {
            if j == acc.len() {
                assert(acc2[i].path == acc[i].path);
                assert(acc2[j].path == n);
                assert(!(0 <= i < acc.len() && acc[i].path == n));
            } else {
                assert(acc2[i].path == acc[i].path && acc2[j].path == acc[j].path);
            }
        }
        lemma_validated_files_distinct(files.drop_first(), acc2);
    }
}

/// No two edits of a validated plan share a normalized path.
pub proof fn lemma_parse_paths_distinct(raw: Seq<char>)
    requires
        spec_parse(raw) is Ok,
    ensures
        forall|i: int, j: int|
            0 <= i < j < spec_parse(raw).get_Ok_0().files.len()
                ==> #[trigger] spec_parse(raw).get_Ok_0().files[i].path
                != #[trigger] spec_parse(raw).get_Ok_0().files[j].path,
{
    let doc = decoded_plan(spec_sanitize(raw)).get_Some_0();
    assert(spec_validated_files(doc.files, Seq::empty()) is Ok);
    lemma_validated_files_distinct(doc.files, Seq::empty());
}

/// Validation fails with the duplicate-path error naming the first
/// duplicated normalized path: given a well-formed document whose file `j`
/// repeats the normalized path of an earlier file `i`, with every path up
/// to `j` normalizing and no duplicate before `j`, the result is exactly
/// that error.
pub proof fn lemma_duplicate_path_rejected(doc: PlanDocView, i: int, j: int)
    requires
        doc.commit_message matches Some(m) && spec_trim(m).len() > 0,
        0 <= i < j < doc.files.len(),
        forall|k: int| 0 <= k <= j ==> spec_normalize_path(#[trigger] doc.files[k].path) is Ok,
        norm_val(doc.files[i].path) == norm_val(doc.files[j].path),
        forall|a: int, b: int|
            0 <= a < b < j ==> norm_val(#[trigger] doc.files[a].path) != norm_val(
                #[trigger] doc.files[b].path,
            ),
    ensures
        spec_validate(doc) == Err::<PlanView, PlanErrorView>(
            PlanErrorView::DuplicatePath(norm_val(doc.files[j].path)),
        ),
{
    let files = doc.files;
    assert forall|k: int| 0 <= k < j implies !spec_paths_contain(
        Seq::<FileEditView>::empty() + normed_files(files, k),
        norm_val(#[trigger] files[k].path),
    ) by {
        let acc = Seq::<FileEditView>::empty() + normed_files(files, k);
        assert(acc =~= normed_files(files, k));
        if spec_paths_contain(acc, norm_val(files[k].path)) {
            let a = choose|a: int|
                0 <= a < acc.len() && acc[a].path == norm_val(files[k].path);
            assert(acc[a].path == norm_val(files[a].path));
            assert(false);
        }
    }
    lemma_validated_files_skip(files, Seq::empty(), j);
    let rest = files.subrange(j, files.len() as int);
    let accj = Seq::<FileEditView>::empty() + normed_files(files, j);
    assert(rest[0] == files[j]);
    let n = norm_val(files[j].path);
    assert(spec_normalize_path(rest[0].path) == Ok::<Seq<char>, Seq<char>>(n));
    assert(accj =~= normed_files(files, j));
    assert(accj[i].path == norm_val(files[i].path));
    assert(spec_paths_contain(accj, n));
    assert(spec_validated_files(rest, accj) == Err::<Seq<FileEditView>, PlanErrorView>(
        PlanErrorView::DuplicatePath(n),
    ));
}

/// Validation fails with the invalid-path error naming the offending path:
/// given a well-formed document whose file `j` does not normalize, with
/// every earlier path normalizing and no duplicate before `j`, the result
/// is exactly that error.
pub proof fn lemma_invalid_path_rejected(doc: PlanDocView, j: int)
    requires
        doc.commit_message matches Some(m) && spec_trim(m).len() > 0,
        0 <= j < doc.files.len(),
        forall|k: int| 0 <= k < j ==> spec_normalize_path(#[trigger] doc.files[k].path) is Ok,
        forall|a: int, b: int|
            0 <= a < b < j ==> norm_val(#[trigger] doc.files[a].path) != norm_val(
                #[trigger] doc.files[b].path,
            ),
        spec_normalize_path(doc.files[j].path) is Err,
    ensures
        spec_validate(doc) == Err::<PlanView, PlanErrorView>(
            PlanErrorView::InvalidPath(norm_val(doc.files[j].path)),
        ),
{
    let files = doc.files;
    assert forall|k: int| 0 <= k < j implies !spec_paths_contain(
        Seq::<FileEditView>::empty() + normed_files(files, k),
        norm_val(#[trigger] files[k].path),
    ) by {
        let acc = Seq::<FileEditView>::empty() + normed_files(files, k);
        assert(acc =~= normed_files(files, k));
        if spec_paths_contain(acc, norm_val(files[k].path)) {
            let a = choose|a: int|
                0 <= a < acc.len() && acc[a].path == norm_val(files[k].path);
            assert(acc[a].path == norm_val(files[a].path));
            assert(false);
        }
    }
    lemma_validated_files_skip(files, Seq::empty(), j);
    let rest = files.subrange(j, files.len() as int);
    let accj = Seq::<FileEditView>::empty() + normed_files(files, j);
    assert(rest[0] == files[j]);
    assert(spec_validated_files(rest, accj) == Err::<Seq<FileEditView>, PlanErrorView>(
        PlanErrorView::InvalidPath(norm_val(files[j].path)),
    ));
}

fn trim_string(s: &String) -> (r: String)
    ensures
        r@ == spec_trim(s@),
{
    let chars = to_chars(s.as_str());
    let trimmed = trim_chars(&chars);
    from_chars(&trimmed)
}

/// Whether an already-accepted edit uses this path.
fn contains_path(acc: &Vec<FileEdit>, p: &String) -> (r: bool)
    ensures
        r == spec_paths_contain(file_views(acc@), p@),
{
    let pchars = to_chars(p.as_str());
    let n = acc.len();
    let mut i: usize = 0;
    while i < n
        invariant
            i <= n,
            n == acc@.len(),
            pchars@ == p@,
            forall|j: int| 0 <= j < i ==> file_views(acc@)[j].path != p@,
        decreases n - i,
    {
        let other = to_chars(acc[i].path.as_str());
        proof {
            assert(file_views(acc@)[i as int] == acc@[i as int]@);
        }
        if chars_eq(&other, &pchars) {
            proof {
                assert(file_views(acc@)[i as int].path == p@);
            }
            return true;
        }
        i = i + 1;
    }
    false
}

impl EditPlan {
    pub fn commit_message(&self) -> (r: &str)
        ensures
            r@ == self@.commit_message,
    {
        self.commit_message.as_str()
    }

    pub fn notes(&self) -> (r: &str)
        ensures
            r@ == self@.notes,
    {
        self.notes.as_str()
    }

    pub fn files(&self) -> (r: &Vec<FileEdit>)
        ensures
            file_views(r@) == self@.files,
    {
        &self.files
    }

    /// Parse raw model output into a validated plan.
    pub fn parse(raw: &str) -> (r: Result<EditPlan, EditPlanError>)
        ensures
            parse_result_matches(raw@, r),
    {
        let sanitized = sanitize_raw_plan(raw);
        let doc = match decode_plan_document(sanitized.as_str()) {
            None => {
                return Err(EditPlanError::InvalidJson);
            },
            Some(d) => d,
        };
        let ghost gdoc = raw_view(doc);
        proof {
            assert(decoded_plan(spec_sanitize(raw@)) == Some(gdoc));
        }
        let RawPlanParts { commit_message: cm_opt, notes: notes_opt, files: doc_files } = doc;
        proof {
            assert(gdoc.files == file_views(doc_files@));
        }
        let commit_message = match &cm_opt {
            Some(m) => {
                let t = trim_string(m);
                if t.as_str().unicode_len() == 0 {
                    return Err(EditPlanError::MissingCommitMessage);
                }
                t
            },
            None => {
                return Err(EditPlanError::MissingCommitMessage);
            },
        };
        proof {
            assert(gdoc.commit_message matches Some(mm) && spec_trim(mm) == commit_message@);
        }
        if doc_files.len() == 0 {
            return Err(EditPlanError::EmptyFiles);
        }
        let notes = match &notes_opt {
            Some(n) => trim_string(n),
            None => String::new(),
        };
        proof {
            assert(match gdoc.notes {
                Some(nn) => notes@ == spec_trim(nn),
                None => notes@.len() == 0,
            });
        }
        let mut remaining = doc_files;
        let mut files: Vec<FileEdit> = Vec::new();
        proof {
            assert(file_views(files@) =~= Seq::<FileEditView>::empty());
        }
        while remaining.len() > 0
            invariant
                decoded_plan(spec_sanitize(raw@)) == Some(gdoc),
                gdoc.commit_message matches Some(mm) && spec_trim(mm) == commit_message@,
                commit_message@.len() > 0,
                gdoc.files.len() > 0,
                match gdoc.notes {
                    Some(nn) => notes@ == spec_trim(nn),
                    None => notes@.len() == 0,
                },
                spec_validated_files(gdoc.files, Seq::empty()) == spec_validated_files(
                    file_views(remaining@),
                    file_views(files@),
                ),
            decreases remaining@.len(),
        {
            let ghost grem = file_views(remaining@);
            let f = remaining.remove(0);
            proof {
                assert(file_views(remaining@) =~= grem.drop_first());
                assert(grem[0] == f@);
            }
            let normalized = match normalize_path(f.path.as_str()) {
                Ok(n) => n,
                Err(e) => {
                    proof {
                        assert(grem[0].path == f.path@);
                        assert(spec_validated_files(grem, file_views(files@))
                            == Err::<Seq<FileEditView>, PlanErrorView>(error_view(e)));
                    }
                    return Err(e);
                },
            };
            if contains_path(&files, &normalized) {
                proof {
                    assert(grem[0].path == f.path@);
                    assert(spec_normalize_path(grem[0].path) == Ok::<Seq<char>, Seq<char>>(
                        normalized@,
                    ));
                    assert(spec_validated_files(grem, file_views(files@))
                        == Err::<Seq<FileEditView>, PlanErrorView>(PlanErrorView::DuplicatePath(
                        normalized@,
                    )));
                }
                return Err(EditPlanError::DuplicatePath { path: normalized });
            }
            let edit = FileEdit { path: normalized, contents: f.contents };
            proof {
                assert(file_views(files@.push(edit)) =~= file_views(files@).push(edit@));
            }
            files.push(edit);
        }
        proof {
            assert(file_views(remaining@) =~= Seq::<FileEditView>::empty());
        }
        Ok(EditPlan { commit_message, notes, files })
    }
}

} // verus!

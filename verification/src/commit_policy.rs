//! Structured commit-message formatting.
//!
//! Every accepted step is recorded as one commit whose message carries the
//! agent's summary, a context block, the agent's rationale, a diff summary
//! and the verification outcomes, each under a fixed section header, so the
//! whole history is self-documenting and machine-parsable.

use vstd::prelude::*;

use crate::runner::RunOutcome;
use crate::step::{spec_role_str, Role};
use crate::support::{spec_truncate, truncate};
use crate::text::{
    lemma_contains_left, lemma_contains_right, spec_contains, spec_contains_at,
    charvecs_view, dec_i32, dec_u32, from_chars, join_chars, lines_chars, push_all,
    spec_dec, spec_dec_signed, spec_join, spec_lines, spec_trim, strings_view, to_chars,
    trim_chars,
};

verus! {

/// Captures the verification-command outputs for the commit message.
#[derive(Debug, Clone)]
pub struct RunnerOutcomeSummary {
    pub fmt: RunOutcome,
    pub check: RunOutcome,
    pub test: RunOutcome,
}

impl RunnerOutcomeSummary {
    pub fn new(fmt: RunOutcome, check: RunOutcome, test: RunOutcome) -> (r: Self)
        ensures
            r.fmt == fmt,
            r.check == check,
            r.test == test,
    {
        Self { fmt, check, test }
    }
}

/// Inputs required to generate a commit message.
#[derive(Debug, Clone)]
pub struct CommitMessageInputs {
    pub role: Role,
    pub step_index: u32,
    pub kata_description: String,
    pub agent_commit_message: String,
    pub notes: String,
    pub files_changed: Vec<String>,
    pub plan_path: String,
    pub runner_outcomes: RunnerOutcomeSummary,
}

/// The position of the first non-blank line, or -1 when every line is
/// blank.
pub open spec fn spec_first_nonblank(lines: Seq<Seq<char>>) -> int
    decreases lines.len(),
{
    if lines.len() == 0 {
        -1
    } else if spec_trim(lines[0]).len() > 0 {
        0
    } else {
        let r = spec_first_nonblank(lines.drop_first());
        if r == -1 {
            -1
        } else {
            r + 1
        }
    }
}

pub proof fn lemma_first_nonblank_bounds(lines: Seq<Seq<char>>)
    ensures
        spec_first_nonblank(lines) == -1 ==> forall|i: int|
            0 <= i < lines.len() ==> spec_trim(#[trigger] lines[i]).len() == 0,
        spec_first_nonblank(lines) != -1 ==> {
            &&& 0 <= spec_first_nonblank(lines) < lines.len()
            &&& spec_trim(lines[spec_first_nonblank(lines)]).len() > 0
            &&& forall|i: int|
                0 <= i < spec_first_nonblank(lines) ==> spec_trim(#[trigger] lines[i]).len() == 0
        },
    decreases lines.len(),
{
    if lines.len() == 0 {
    } else if spec_trim(lines[0]).len() > 0 {
    } else {
        lemma_first_nonblank_bounds(lines.drop_first());
        let r = spec_first_nonblank(lines.drop_first());
        if r == -1 {
            assert(forall|i: int|
                1 <= i < lines.len() ==> lines[i] == lines.drop_first()[i - 1] && spec_trim(
                    lines.drop_first()[i - 1],
                ).len() == 0);
        } else {
            assert(lines[r + 1] == lines.drop_first()[r]);
            assert(forall|i: int|
                1 <= i < r + 1 ==> lines[i] == lines.drop_first()[i - 1] && spec_trim(
                    lines.drop_first()[i - 1],
                ).len() == 0);
        }
    }
}

/// The agent message split into a one-line summary — the trimmed first
/// non-blank line, with a fixed fallback when there is none — and an
/// optional body: the lines after the summary line, omitted if blank.
pub open spec fn spec_split_message(message: Seq<char>) -> (Seq<char>, Option<Seq<char>>) {
    let lines = spec_lines(message);
    let k = spec_first_nonblank(lines);
    if k == -1 {
        ("chore: update"@, None)
    } else {
        let summary = spec_trim(lines[k]);
        let rest = lines.subrange(k + 1, lines.len() as int);
        let body = if rest.len() == 0 {
            None
        } else {
            let joined = spec_join(rest, '\n');
            if spec_trim(joined).len() == 0 {
                None::<Seq<char>>
            } else {
                Some(joined)
            }
        };
        (summary, body)
    }
}

/// Split an agent message into its summary line and optional body.
pub fn split_message(message: &str) -> (r: (String, Option<String>))
    ensures
        r.0@ == spec_split_message(message@).0,
        match (r.1, spec_split_message(message@).1) {
            (Some(b), Some(g)) => b@ == g,
            (None, None) => true,
            _ => false,
        },
{
    let chars = to_chars(message);
    let lines = lines_chars(&chars);
    let ghost glines = spec_lines(message@);
    let n = lines.len();
    proof {
        assert(glines.subrange(0, glines.len() as int) =~= glines);
        lemma_first_nonblank_bounds(glines);
    }
    let mut k: usize = 0;
    let mut found = false;
    while k < n && !found
        invariant
            k <= n,
            n == glines.len(),
            glines == spec_lines(message@),
            charvecs_view(lines@) == glines,
            lines@.len() == n,
            !found ==> forall|i: int| 0 <= i < k ==> spec_trim(#[trigger] glines[i]).len() == 0,
            found ==> k < n && spec_trim(glines[k as int]).len() > 0 && forall|i: int|
                0 <= i < k ==> spec_trim(#[trigger] glines[i]).len() == 0,
        decreases n - k, (if found { 0int } else { 1int }),
    {
        proof {
            assert(charvecs_view(lines@)[k as int] == lines@[k as int]@);
        }
        let trimmed = trim_chars(&lines[k]);
        if trimmed.len() > 0 {
            found = true;
        } else {
            k = k + 1;
        }
    }
    proof {
        lemma_first_nonblank_bounds(glines);
        if found {
            assert(spec_first_nonblank(glines) == k as int) by {
                let g = spec_first_nonblank(glines);
                if g == -1 {
                    assert(spec_trim(glines[k as int]).len() == 0);
                } else if g < k {
                    assert(spec_trim(glines[g]).len() == 0);
                } else if g > k {
                    assert(spec_trim(glines[k as int]).len() == 0);
                }
            }
        } else {
            assert(k == n);
            assert(spec_first_nonblank(glines) == -1) by {
                let g = spec_first_nonblank(glines);
                if g != -1 {
                    assert(spec_trim(glines[g]).len() == 0);
                }
            }
        }
    }
    if !found {
        return (String::from_str("chore: update"), None);
    }
    let summary_chars = trim_chars(&lines[k]);
    let summary = from_chars(&summary_chars);
    if k + 1 == n {
        proof {
            assert(glines.subrange(k + 1, n as int).len() == 0);
        }
        return (summary, None);
    }
    let mut rest: Vec<Vec<char>> = Vec::new();
    let mut j: usize = k + 1;
    while j < n
        invariant
            k + 1 <= j <= n,
            n == glines.len(),
            charvecs_view(lines@) == glines,
            lines@.len() == n,
            charvecs_view(rest@) == glines.subrange(k + 1, j as int),
        decreases n - j,
    {
        proof {
            assert(charvecs_view(lines@)[j as int] == lines@[j as int]@);
        }
        let line = crate::text::clone_chars(&lines[j]);
        proof {
            assert(charvecs_view(rest@.push(line)) =~= charvecs_view(rest@).push(line@));
            assert(glines.subrange(k + 1, j + 1) =~= glines.subrange(k + 1, j as int).push(
                glines[j as int],
            ));
        }
        rest.push(line);
        j = j + 1;
    }
    let joined = join_chars(&rest, '\n');
    let trimmed = trim_chars(&joined);
    if trimmed.len() == 0 {
        (summary, None)
    } else {
        (summary, Some(from_chars(&joined)))
    }
}

/// The first non-blank line of the kata description, trimmed; a fixed
/// pointer when there is none.
pub open spec fn spec_first_goal(lines: Seq<Seq<char>>) -> Seq<char>
    decreases lines.len(),
{
    if lines.len() == 0 {
        "See kata.md for details"@
    } else if spec_trim(lines[0]).len() > 0 {
        spec_trim(lines[0])
    } else {
        spec_first_goal(lines.drop_first())
    }
}

pub open spec fn spec_kata_goal(description: Seq<char>) -> Seq<char> {
    spec_first_goal(spec_lines(description))
}

/// Extract the one-line goal from the kata description.
pub fn extract_kata_goal(description: &str) -> (r: String)
    ensures
        r@ == spec_kata_goal(description@),
{
    let chars = to_chars(description);
    let lines = lines_chars(&chars);
    let ghost glines = spec_lines(description@);
    let n = lines.len();
    let mut i: usize = 0;
    proof {
        assert(glines.subrange(0, glines.len() as int) =~= glines);
    }
    while i < n
        invariant
            i <= n,
            n == glines.len(),
            glines == spec_lines(description@),
            charvecs_view(lines@) == glines,
            lines@.len() == n,
            spec_first_goal(glines) == spec_first_goal(glines.subrange(i as int, n as int)),
        decreases n - i,
    {
        proof {
            assert(charvecs_view(lines@)[i as int] == lines@[i as int]@);
            assert(glines.subrange(i as int, n as int)[0] == glines[i as int]);
        }
        let trimmed = trim_chars(&lines[i]);
        if trimmed.len() > 0 {
            return from_chars(&trimmed);
        }
        proof {
            assert(glines.subrange(i as int, n as int).drop_first() =~= glines.subrange(
                i + 1,
                n as int,
            ));
        }
        i = i + 1;
    }
    proof {
        assert(glines.subrange(n as int, n as int).len() == 0);
    }
    String::from_str("See kata.md for details")
}

/// The rationale section body: the agent notes bulleted line by line, or a
/// placeholder bullet for blank notes.
pub open spec fn spec_rationale(notes: Seq<char>) -> Seq<char> {
    if spec_trim(notes).len() == 0 {
        "- Agent did not provide additional notes."@
    } else {
        spec_join(spec_lines(notes).map_values(|l: Seq<char>| "- "@ + spec_trim(l)), '\n')
    }
}

fn rationale_text(notes: &str) -> (r: String)
    ensures
        r@ == spec_rationale(notes@),
{
    let chars = to_chars(notes);
    let whole_trimmed = trim_chars(&chars);
    if whole_trimmed.len() == 0 {
        return String::from_str("- Agent did not provide additional notes.");
    }
    let lines = lines_chars(&chars);
    let ghost glines = spec_lines(notes@);
    let ghost mapped = glines.map_values(|l: Seq<char>| "- "@ + spec_trim(l));
    let n = lines.len();
    let mut bullets: Vec<Vec<char>> = Vec::new();
    let mut i: usize = 0;
    while i < n
        invariant
            i <= n,
            n == glines.len(),
            charvecs_view(lines@) == glines,
            lines@.len() == n,
            mapped == glines.map_values(|l: Seq<char>| "- "@ + spec_trim(l)),
            charvecs_view(bullets@) == mapped.subrange(0, i as int),
        decreases n - i,
    {
        proof {
            assert(charvecs_view(lines@)[i as int] == lines@[i as int]@);
            assert(mapped[i as int] == "- "@ + spec_trim(glines[i as int]));
        }
        let mut bullet = to_chars("- ");
        let trimmed = trim_chars(&lines[i]);
        push_all(&mut bullet, &trimmed);
        proof {
            assert(charvecs_view(bullets@.push(bullet)) =~= charvecs_view(bullets@).push(bullet@));
            assert(mapped.subrange(0, i + 1) =~= mapped.subrange(0, i as int).push(
                mapped[i as int],
            ));
        }
        bullets.push(bullet);
        i = i + 1;
    }
    proof {
        assert(mapped.subrange(0, mapped.len() as int) =~= mapped);
    }
    let joined = join_chars(&bullets, '\n');
    from_chars(&joined)
}

/// The diff-summary section body: one bullet per changed file, or a
/// placeholder when none were reported.
pub open spec fn spec_diff_summary(files: Seq<Seq<char>>) -> Seq<char> {
    if files.len() == 0 {
        "- No files reported"@
    } else {
        spec_join(files.map_values(|f: Seq<char>| "- "@ + f), '\n')
    }
}

fn diff_summary_text(files: &Vec<String>) -> (r: String)
    ensures
        r@ == spec_diff_summary(strings_view(files@)),
{
    if files.len() == 0 {
        return String::from_str("- No files reported");
    }
    let ghost gfiles = strings_view(files@);
    let ghost mapped = gfiles.map_values(|f: Seq<char>| "- "@ + f);
    let n = files.len();
    let mut bullets: Vec<Vec<char>> = Vec::new();
    let mut i: usize = 0;
    while i < n
        invariant
            i <= n,
            n == gfiles.len(),
            gfiles == strings_view(files@),
            files@.len() == n,
            mapped == gfiles.map_values(|f: Seq<char>| "- "@ + f),
            charvecs_view(bullets@) == mapped.subrange(0, i as int),
        decreases n - i,
    {
        proof {
            assert(strings_view(files@)[i as int] == files@[i as int]@);
            assert(mapped[i as int] == "- "@ + gfiles[i as int]);
        }
        let mut bullet = to_chars("- ");
        let fchars = to_chars(files[i].as_str());
        push_all(&mut bullet, &fchars);
        proof {
            assert(charvecs_view(bullets@.push(bullet)) =~= charvecs_view(bullets@).push(bullet@));
            assert(mapped.subrange(0, i + 1) =~= mapped.subrange(0, i as int).push(
                mapped[i as int],
            ));
        }
        bullets.push(bullet);
        i = i + 1;
    }
    proof {
        assert(mapped.subrange(0, mapped.len() as int) =~= mapped);
    }
    let joined = join_chars(&bullets, '\n');
    from_chars(&joined)
}

/// One verification line: the label, the exit code, and — when the command
/// printed anything — a preview of the captured output, trimmed and
/// shortened to at most 200 characters.
pub open spec fn spec_verification_line(label: Seq<char>, outcome: RunOutcome) -> Seq<char> {
    let base = "- "@ + label + ": exit "@ + spec_dec_signed(outcome.code as int);
    if spec_trim(outcome.stdout@).len() == 0 {
        base
    } else {
        base + " ("@ + spec_truncate(spec_trim(outcome.stdout@), 200) + ")"@
    }
}

fn verification_line(label: &str, outcome: &RunOutcome) -> (r: String)
    ensures
        r@ == spec_verification_line(label@, *outcome),
{
    let mut line = String::from_str("- ");
    line.append(label);
    line.append(": exit ");
    let code_chars = dec_i32(outcome.code);
    let code_text = from_chars(&code_chars);
    line.append(code_text.as_str());
    let stdout_chars = to_chars(outcome.stdout.as_str());
    let stdout_trimmed = trim_chars(&stdout_chars);
    if stdout_trimmed.len() > 0 {
        line.append(" (");
        let trimmed_text = from_chars(&stdout_trimmed);
        let preview = truncate(trimmed_text.as_str(), 200);
        line.append(preview.as_str());
        line.append(")");
    }
    line
}

/// The verification section body: one line for each of the format, lint and
/// test commands.
pub open spec fn spec_verification(s: RunnerOutcomeSummary) -> Seq<char> {
    spec_verification_line("fmt"@, s.fmt) + "\n"@ + spec_verification_line("check"@, s.check)
        + "\n"@ + spec_verification_line("test"@, s.test)
}

/// Render the three verification outcomes, one line each.
pub fn format_verification(summary: &RunnerOutcomeSummary) -> (r: String)
    ensures
        r@ == spec_verification(*summary),
{
    let mut text = verification_line("fmt", &summary.fmt);
    text.append("\n");
    let check_line = verification_line("check", &summary.check);
    text.append(check_line.as_str());
    text.append("\n");
    let test_line = verification_line("test", &summary.test);
    text.append(test_line.as_str());
    text
}

/// The leading message: the summary line, with the trimmed body below it
/// when there is one.
pub open spec fn spec_message_part(agent_commit_message: Seq<char>) -> Seq<char> {
    let parts = spec_split_message(agent_commit_message);
    match parts.1 {
        Some(body) => parts.0 + "\n"@ + spec_trim(body),
        None => parts.0,
    }
}

/// The whole commit message: the agent message, then the context, rationale,
/// diff-summary and verification sections in fixed order.
pub open spec fn spec_format(input: CommitMessageInputs) -> Seq<char> {
    spec_message_part(input.agent_commit_message@) + "\n\nContext:\n- Role: "@ + spec_role_str(
        input.role,
    ) + "\n- Step: "@ + spec_dec(input.step_index as nat) + "\n- Kata goal: "@ + spec_kata_goal(
        input.kata_description@,
    ) + "\n- Plan: "@ + input.plan_path@ + "\n\nRationale:\n"@ + spec_rationale(input.notes@)
        + "\n\nDiff summary:\n"@ + spec_diff_summary(strings_view(input.files_changed@))
        + "\n\nVerification:\n"@ + spec_verification(input.runner_outcomes) + "\n"@
}

/// Formats commit messages with context, rationale, diff summary and
/// verification sections.
#[derive(Debug, Clone)]
pub struct CommitPolicy;

impl Default for CommitPolicy {
    fn default() -> (r: Self)
        ensures
            r == CommitPolicy,
    {
        CommitPolicy
    }
}

impl CommitPolicy {
    /// Produce the structured commit message for one accepted step.
    pub fn format(&self, input: &CommitMessageInputs) -> (r: String)
        ensures
            r@ == spec_format(*input),
    {
        let parts = split_message(input.agent_commit_message.as_str());
        let mut message = parts.0;
        match &parts.1 {
            Some(body) => {
                message.append("\n");
                let body_chars = to_chars(body.as_str());
                let body_trimmed = trim_chars(&body_chars);
                let body_text = from_chars(&body_trimmed);
                message.append(body_text.as_str());
            },
            None => {},
        }
        message.append("\n\nContext:\n- Role: ");
        message.append(input.role.as_str());
        message.append("\n- Step: ");
        let step_chars = dec_u32(input.step_index);
        let step_text = from_chars(&step_chars);
        message.append(step_text.as_str());
        message.append("\n- Kata goal: ");
        let goal = extract_kata_goal(input.kata_description.as_str());
        message.append(goal.as_str());
        message.append("\n- Plan: ");
        message.append(input.plan_path.as_str());
        message.append("\n\nRationale:\n");
        let rationale = rationale_text(input.notes.as_str());
        message.append(rationale.as_str());
        message.append("\n\nDiff summary:\n");
        let diff = diff_summary_text(&input.files_changed);
        message.append(diff.as_str());
        message.append("\n\nVerification:\n");
        let verification = format_verification(&input.runner_outcomes);
        message.append(verification.as_str());
        message.append("\n");
        message
    }
}


/// The produced commit message always carries the four section headers; a
/// blank notes text yields the placeholder rationale bullet, and an empty
/// changed-file list the placeholder diff bullet.
pub proof fn lemma_commit_message_sections(input: CommitMessageInputs)
    ensures
        spec_contains(spec_format(input), "Context:"@),
        spec_contains(spec_format(input), "Rationale:"@),
        spec_contains(spec_format(input), "Diff summary:"@),
        spec_contains(spec_format(input), "Verification:"@),
        spec_trim(input.notes@).len() == 0 ==> spec_contains(
            spec_format(input),
            "- Agent did not provide additional notes."@,
        ),
        input.files_changed@.len() == 0 ==> spec_contains(
            spec_format(input),
            "- No files reported"@,
        ),
{
    let mp = spec_message_part(input.agent_commit_message@);
    let l1 = "\n\nContext:\n- Role: "@;
    let l9 = "\n\nRationale:\n"@;
    let rat = spec_rationale(input.notes@);
    let l11 = "\n\nDiff summary:\n"@;
    let diff = spec_diff_summary(strings_view(input.files_changed@));
    let l13 = "\n\nVerification:\n"@;
    let p1 = mp + l1;
    let p2 = p1 + spec_role_str(input.role);
    let p3 = p2 + "\n- Step: "@;
    let p4 = p3 + spec_dec(input.step_index as nat);
    let p5 = p4 + "\n- Kata goal: "@;
    let p6 = p5 + spec_kata_goal(input.kata_description@);
    let p7 = p6 + "\n- Plan: "@;
    let p8 = p7 + input.plan_path@;
    let p9 = p8 + l9;
    let p10 = p9 + rat;
    let p11 = p10 + l11;
    let p12 = p11 + diff;
    let p13 = p12 + l13;
    let p14 = p13 + spec_verification(input.runner_outcomes);
    let p15 = p14 + "\n"@;
    assert(spec_format(input) == p15);
    assert(spec_contains(l1, "Context:"@)) by {
        reveal_strlit("\n\nContext:\n- Role: ");
        reveal_strlit("Context:");
        assert(l1.subrange(2, 10) =~= "Context:"@);
        assert(spec_contains_at(l1, 2, "Context:"@));
    }
    lemma_contains_right(mp, l1, "Context:"@);
    lemma_contains_left(p1, spec_role_str(input.role), "Context:"@);
    lemma_contains_left(p2, "\n- Step: "@, "Context:"@);
    lemma_contains_left(p3, spec_dec(input.step_index as nat), "Context:"@);
    lemma_contains_left(p4, "\n- Kata goal: "@, "Context:"@);
    lemma_contains_left(p5, spec_kata_goal(input.kata_description@), "Context:"@);
    lemma_contains_left(p6, "\n- Plan: "@, "Context:"@);
    lemma_contains_left(p7, input.plan_path@, "Context:"@);
    lemma_contains_left(p8, l9, "Context:"@);
    lemma_contains_left(p9, rat, "Context:"@);
    lemma_contains_left(p10, l11, "Context:"@);
    lemma_contains_left(p11, diff, "Context:"@);
    lemma_contains_left(p12, l13, "Context:"@);
    lemma_contains_left(p13, spec_verification(input.runner_outcomes), "Context:"@);
    lemma_contains_left(p14, "\n"@, "Context:"@);
    assert(spec_contains(l9, "Rationale:"@)) by {
        reveal_strlit("\n\nRationale:\n");
        reveal_strlit("Rationale:");
        assert(l9.subrange(2, 12) =~= "Rationale:"@);
        assert(spec_contains_at(l9, 2, "Rationale:"@));
    }
    lemma_contains_right(p8, l9, "Rationale:"@);
    lemma_contains_left(p9, rat, "Rationale:"@);
    lemma_contains_left(p10, l11, "Rationale:"@);
    lemma_contains_left(p11, diff, "Rationale:"@);
    lemma_contains_left(p12, l13, "Rationale:"@);
    lemma_contains_left(p13, spec_verification(input.runner_outcomes), "Rationale:"@);
    lemma_contains_left(p14, "\n"@, "Rationale:"@);
    assert(spec_contains(l11, "Diff summary:"@)) by {
        reveal_strlit("\n\nDiff summary:\n");
        reveal_strlit("Diff summary:");
        assert(l11.subrange(2, 15) =~= "Diff summary:"@);
        assert(spec_contains_at(l11, 2, "Diff summary:"@));
    }
    lemma_contains_right(p10, l11, "Diff summary:"@);
    lemma_contains_left(p11, diff, "Diff summary:"@);
    lemma_contains_left(p12, l13, "Diff summary:"@);
    lemma_contains_left(p13, spec_verification(input.runner_outcomes), "Diff summary:"@);
    lemma_contains_left(p14, "\n"@, "Diff summary:"@);
    assert(spec_contains(l13, "Verification:"@)) by {
        reveal_strlit("\n\nVerification:\n");
        reveal_strlit("Verification:");
        assert(l13.subrange(2, 15) =~= "Verification:"@);
        assert(spec_contains_at(l13, 2, "Verification:"@));
    }
    lemma_contains_right(p12, l13, "Verification:"@);
    lemma_contains_left(p13, spec_verification(input.runner_outcomes), "Verification:"@);
    lemma_contains_left(p14, "\n"@, "Verification:"@);
    if spec_trim(input.notes@).len() == 0 {
        let ph = "- Agent did not provide additional notes."@;
        assert(rat == ph);
        assert(rat.subrange(0, ph.len() as int) =~= ph);
        assert(spec_contains_at(rat, 0, ph));
        lemma_contains_right(p9, rat, ph);
    lemma_contains_left(p10, l11, ph);
        lemma_contains_left(p11, diff, ph);
        lemma_contains_left(p12, l13, ph);
        lemma_contains_left(p13, spec_verification(input.runner_outcomes), ph);
        lemma_contains_left(p14, "\n"@, ph);
    }
    if input.files_changed@.len() == 0 {
        let ph = "- No files reported"@;
        assert(strings_view(input.files_changed@).len() == 0);
        assert(diff == ph);
        assert(diff.subrange(0, ph.len() as int) =~= ph);
        assert(spec_contains_at(diff, 0, ph));
        lemma_contains_right(p11, diff, ph);
    lemma_contains_left(p12, l13, ph);
        lemma_contains_left(p13, spec_verification(input.runner_outcomes), ph);
        lemma_contains_left(p14, "\n"@, ph);
    }
}

} // verus!

//! Prompt assembly shared by the agents.
//!
//! Chat messages are built from a fixed instruction, the step context and,
//! for the edit phase, the cached plan plus the schema the edit response
//! must follow.

use vstd::prelude::*;

use crate::step::{spec_role_str, StepContext};
use crate::text::{
    charvecs_view, dec_u32, from_chars, join_chars, push_all, spec_dec, spec_join, spec_trim,
    strings_view, sub_chars, to_chars, trim_chars,
};

verus! {

/// Role values accepted by chat endpoints.
#[derive(Debug, Clone, Copy, PartialEq, Eq, Structural)]
pub enum MessageRole {
    System,
    User,
    Assistant,
}

/// Simple chat message representation shared across agents.
#[derive(Debug, Clone)]
pub struct Message {
    pub role: MessageRole,
    pub content: String,
}

/// The schema hint shared by all agents when requesting edit plans.
pub fn edit_plan_instructions() -> (r: &'static str)
    ensures
        r@
            == "\nReturn **only** JSON matching this schema:\n{\n  \"commit_message\": \"conventional commit summary\",\n  \"notes\": \"bullet list or paragraph summarizing edits\",\n  \"files\": [\n    { \"path\": \"relative/path.rs\", \"contents\": \"entire file contents\" }\n  ]\n}\nDo not include prose outside of the JSON object.\n"@,
{
    "\nReturn **only** JSON matching this schema:\n{\n  \"commit_message\": \"conventional commit summary\",\n  \"notes\": \"bullet list or paragraph summarizing edits\",\n  \"files\": [\n    { \"path\": \"relative/path.rs\", \"contents\": \"entire file contents\" }\n  ]\n}\nDo not include prose outside of the JSON object.\n"
}

/// The text shortened to at most `limit` characters, with an ellipsis mark
/// appended when something was cut.
pub open spec fn spec_truncate(s: Seq<char>, limit: int) -> Seq<char> {
    if s.len() <= limit {
        s
    } else {
        s.subrange(0, limit) + seq!['\u{2026}']
    }
}

/// Shorten a text to at most `limit` characters.
pub fn truncate(input: &str, limit: usize) -> (r: String)
    ensures
        r@ == spec_truncate(input@, limit as int),
{
    let chars = to_chars(input);
    if chars.len() <= limit {
        from_chars(&chars)
    } else {
        let mut cut = sub_chars(&chars, 0, limit);
        cut.push('\u{2026}');
        proof {
            assert(cut@ =~= input@.subrange(0, limit as int) + seq!['\u{2026}']);
        }
        from_chars(&cut)
    }
}

/// The repository context payload handed to an agent: the instruction, the
/// role and step, the truncated kata description, then the last commit
/// message, the last diff and the first thirty tracked files when present.
pub open spec fn spec_context_payload(instruction: Seq<char>, ctx: StepContext) -> Seq<char> {
    let base = "Instruction:\n"@ + instruction + "\n\n"@ + "Role: "@ + spec_role_str(ctx.role)
        + "\n"@ + "Step: "@ + spec_dec(ctx.step_index as nat) + "\n"@ + "Kata description:\n"@
        + spec_truncate(ctx.kata_description@, 1200) + "\n\n"@;
    let with_msg = if spec_trim(ctx.git_last_commit_msg@).len() > 0 {
        base + "Last commit message:\n"@ + spec_truncate(ctx.git_last_commit_msg@, 600) + "\n\n"@
    } else {
        base
    };
    let with_diff = if spec_trim(ctx.git_last_diff@).len() > 0 {
        with_msg + "Last diff snippet:\n"@ + spec_truncate(ctx.git_last_diff@, 1200) + "\n\n"@
    } else {
        with_msg
    };
    if ctx.repo_snapshot_paths@.len() > 0 {
        let paths = strings_view(ctx.repo_snapshot_paths@);
        let shown = if paths.len() > 30 {
            paths.subrange(0, 30)
        } else {
            paths
        };
        with_diff + "Tracked files (first 30):\n"@ + spec_join(
            shown.map_values(|p: Seq<char>| "- "@ + p),
            '\n',
        ) + "\n\n"@
    } else {
        with_diff
    }
}

/// Assemble the context payload for one instruction.
pub fn format_context_payload(instruction: &str, ctx: &StepContext) -> (r: String)
    ensures
        r@ == spec_context_payload(instruction@, *ctx),
{
    let mut buffer = String::from_str("Instruction:\n");
    buffer.append(instruction);
    buffer.append("\n\n");
    buffer.append("Role: ");
    buffer.append(ctx.role.as_str());
    buffer.append("\n");
    buffer.append("Step: ");
    let step_chars = dec_u32(ctx.step_index);
    let step_text = from_chars(&step_chars);
    buffer.append(step_text.as_str());
    buffer.append("\n");
    buffer.append("Kata description:\n");
    let kata = truncate(ctx.kata_description.as_str(), 1200);
    buffer.append(kata.as_str());
    buffer.append("\n\n");
    let msg_chars = to_chars(ctx.git_last_commit_msg.as_str());
    let msg_trimmed = trim_chars(&msg_chars);
    if msg_trimmed.len() > 0 {
        buffer.append("Last commit message:\n");
        let msg = truncate(ctx.git_last_commit_msg.as_str(), 600);
        buffer.append(msg.as_str());
        buffer.append("\n\n");
    }
    let diff_chars = to_chars(ctx.git_last_diff.as_str());
    let diff_trimmed = trim_chars(&diff_chars);
    if diff_trimmed.len() > 0 {
        buffer.append("Last diff snippet:\n");
        let diff = truncate(ctx.git_last_diff.as_str(), 1200);
        buffer.append(diff.as_str());
        buffer.append("\n\n");
    }
    if ctx.repo_snapshot_paths.len() > 0 {
        buffer.append("Tracked files (first 30):\n");
        let total = ctx.repo_snapshot_paths.len();
        let shown_count = if total > 30 {
            30
        } else {
            total
        };
        let ghost paths = strings_view(ctx.repo_snapshot_paths@);
        let ghost shown = if paths.len() > 30 {
            paths.subrange(0, 30)
        } else {
            paths
        };
        let ghost mapped = shown.map_values(|p: Seq<char>| "- "@ + p);
        proof {
            assert(shown =~= paths.subrange(0, shown_count as int));
        }
        let mut bullets: Vec<Vec<char>> = Vec::new();
        let mut j: usize = 0;
        while j < shown_count
            invariant
                j <= shown_count,
                shown_count <= ctx.repo_snapshot_paths@.len(),
                paths == strings_view(ctx.repo_snapshot_paths@),
                shown == paths.subrange(0, shown_count as int),
                mapped == shown.map_values(|p: Seq<char>| "- "@ + p),
                charvecs_view(bullets@) == mapped.subrange(0, j as int),
            decreases shown_count - j,
        {
            proof {
                assert(paths[j as int] == ctx.repo_snapshot_paths@[j as int]@);
                assert(shown[j as int] == paths[j as int]);
                assert(mapped[j as int] == "- "@ + shown[j as int]);
            }
            let mut bullet = to_chars("- ");
            let pchars = to_chars(ctx.repo_snapshot_paths[j].as_str());
            push_all(&mut bullet, &pchars);
            proof {
                assert(charvecs_view(bullets@.push(bullet)) =~= charvecs_view(bullets@).push(
                    bullet@,
                ));
                assert(mapped.subrange(0, j + 1) =~= mapped.subrange(0, j as int).push(
                    mapped[j as int],
                ));
            }
            bullets.push(bullet);
            j = j + 1;
        }
        proof {
            assert(mapped.subrange(0, mapped.len() as int) =~= mapped);
        }
        let file_list = join_chars(&bullets, '\n');
        let file_list_text = from_chars(&file_list);
        buffer.append(file_list_text.as_str());
        buffer.append("\n\n");
    }
    buffer
}

/// Build the chat messages for the planning phase.
pub fn plan_messages(system_prompt: &str, ctx: &StepContext) -> (r: Vec<Message>)
    ensures
        r@.len() == 2,
        r@[0].role == MessageRole::System,
        r@[0].content@ == system_prompt@,
        r@[1].role == MessageRole::User,
        r@[1].content@ == spec_context_payload("Outline your next test strategy."@, *ctx),
{
    let mut messages: Vec<Message> = Vec::new();
    let system_chars = to_chars(system_prompt);
    messages.push(Message { role: MessageRole::System, content: from_chars(&system_chars) });
    let payload = format_context_payload("Outline your next test strategy.", ctx);
    messages.push(Message { role: MessageRole::User, content: payload });
    messages
}

/// The user instruction of the edit phase: the cached plan when present,
/// the response schema, and the final request.
pub open spec fn spec_edit_instructions(cached_plan: Option<Seq<char>>) -> Seq<char> {
    let head = match cached_plan {
        Some(plan) => "Previously proposed plan:\n"@ + plan + "\n\n"@
            + "\nReturn **only** JSON matching this schema:\n{\n  \"commit_message\": \"conventional commit summary\",\n  \"notes\": \"bullet list or paragraph summarizing edits\",\n  \"files\": [\n    { \"path\": \"relative/path.rs\", \"contents\": \"entire file contents\" }\n  ]\n}\nDo not include prose outside of the JSON object.\n"@,
        None => "\nReturn **only** JSON matching this schema:\n{\n  \"commit_message\": \"conventional commit summary\",\n  \"notes\": \"bullet list or paragraph summarizing edits\",\n  \"files\": [\n    { \"path\": \"relative/path.rs\", \"contents\": \"entire file contents\" }\n  ]\n}\nDo not include prose outside of the JSON object.\n"@,
    };
    head + "\n\nApply edits now using the repository context below."@
}

/// Build the chat messages for the edit phase, reusing the cached plan if
/// present.
pub fn edit_messages(system_prompt: &str, ctx: &StepContext, cached_plan: Option<&str>) -> (r: Vec<
    Message,
>)
    ensures
        r@.len() == 2,
        r@[0].role == MessageRole::System,
        r@[0].content@ == system_prompt@,
        r@[1].role == MessageRole::User,
        r@[1].content@ == spec_context_payload(
            spec_edit_instructions(
                match cached_plan {
                    Some(p) => Some(p@),
                    None => None,
                },
            ),
            *ctx,
        ),
{
    let mut user_instructions = match cached_plan {
        Some(plan) => {
            let mut head = String::from_str("Previously proposed plan:\n");
            head.append(plan);
            head.append("\n\n");
            head.append(edit_plan_instructions());
            head
        },
        None => String::from_str(edit_plan_instructions()),
    };
    user_instructions.append("\n\nApply edits now using the repository context below.");
    let mut messages: Vec<Message> = Vec::new();
    let system_chars = to_chars(system_prompt);
    messages.push(Message { role: MessageRole::System, content: from_chars(&system_chars) });
    let payload = format_context_payload(user_instructions.as_str(), ctx);
    messages.push(Message { role: MessageRole::User, content: payload });
    messages
}

} // verus!

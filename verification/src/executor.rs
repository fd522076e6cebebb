//! Step-budget planning and resume detection for the run loop.
//!
//! Running steps spawns processes and network calls outside the verified
//! core; what is verified here is how many steps a run may execute under
//! the configured ceiling, and where a restarted run resumes based on the
//! plan files already on disk.

use vstd::prelude::*;

use crate::logging::spec_parse_step_filename;
use crate::logging::parse_step_filename;
use crate::step::Role;
use crate::text::strings_view;

verus! {

/// What one invocation of the run loop did.
#[derive(Debug, Clone, Copy, PartialEq, Eq, Structural)]
pub struct ExecutionSummary {
    pub requested: u32,
    pub executed: u32,
}

/// Why no step could be planned.
#[derive(Debug)]
pub enum StepBudgetError {
    NoStepsRequested,
    MaxStepsReached { max_steps: u32 },
}

/// Steps already completed before this run, given the next step index.
pub open spec fn spec_completed_steps(starting_step: u32) -> int {
    if starting_step >= 1 {
        starting_step - 1
    } else {
        0
    }
}

/// Steps still allowed under the ceiling.
pub open spec fn spec_remaining_steps(max_steps: u32, starting_step: u32) -> int {
    if max_steps >= spec_completed_steps(starting_step) {
        max_steps - spec_completed_steps(starting_step)
    } else {
        0
    }
}

/// How many steps to run: the request, capped by what the ceiling still
/// allows.  Zero requested steps and an exhausted ceiling are rejected.
pub fn plan_step_budget(requested: u32, max_steps: u32, starting_step: u32) -> (r: Result<
    u32,
    StepBudgetError,
>)
    ensures
        match r {
            Ok(steps) => {
                &&& requested > 0
                &&& spec_remaining_steps(max_steps, starting_step) > 0
                &&& steps == (if requested <= spec_remaining_steps(max_steps, starting_step) {
                    requested as int
                } else {
                    spec_remaining_steps(max_steps, starting_step)
                })
            },
            Err(e) => match e {
                StepBudgetError::NoStepsRequested => requested == 0,
                StepBudgetError::MaxStepsReached { max_steps: m } => requested > 0 && m
                    == max_steps && spec_remaining_steps(max_steps, starting_step) == 0,
            },
        },
{
    if requested == 0 {
        return Err(StepBudgetError::NoStepsRequested);
    }
    let completed: u32 = if starting_step >= 1 {
        starting_step - 1
    } else {
        0
    };
    let remaining: u32 = if max_steps >= completed {
        max_steps - completed
    } else {
        0
    };
    if remaining == 0 {
        return Err(StepBudgetError::MaxStepsReached { max_steps });
    }
    if requested <= remaining {
        Ok(requested)
    } else {
        Ok(remaining)
    }
}

/// The plan-file scan: the highest step index among parseable plan names,
/// with the role of the file that set it.  A name only replaces the current
/// choice when its step index is strictly greater.
pub open spec fn spec_plan_scan(names: Seq<Seq<char>>) -> (u32, Option<Role>)
    decreases names.len(),
{
    if names.len() == 0 {
        (0u32, None)
    } else {
        let prev = spec_plan_scan(names.drop_last());
        match spec_parse_step_filename(names.last(), ".md"@) {
            None => prev,
            Some((step, role)) => {
                if step > prev.0 {
                    (step, Some(role))
                } else {
                    prev
                }
            },
        }
    }
}

/// Where a restarted run resumes: the last role recorded by the plan files
/// and the next step index, starting at one on a fresh workspace.
pub fn detect_plan_progress(names: &Vec<String>) -> (r: (Option<Role>, u32))
    ensures
        r.0 == spec_plan_scan(strings_view(names@)).1,
        r.1 == (if spec_plan_scan(strings_view(names@)).0 == 0 {
            1u32
        } else if spec_plan_scan(strings_view(names@)).0 == u32::MAX {
            u32::MAX
        } else {
            (spec_plan_scan(strings_view(names@)).0 + 1) as u32
        }),
{
    let n = names.len();
    let mut max_step: u32 = 0;
    let mut last_role: Option<Role> = None;
    let mut i: usize = 0;
    proof {
        assert(strings_view(names@).subrange(0, 0) =~= Seq::<Seq<char>>::empty());
    }
    while i < n
        invariant
            i <= n,
            n == names@.len(),
            (max_step, last_role) == spec_plan_scan(strings_view(names@).subrange(0, i as int)),
        decreases n - i,
    {
        proof {
            assert(strings_view(names@)[i as int] == names@[i as int]@);
            let prefix2 = strings_view(names@).subrange(0, i + 1);
            assert(prefix2.drop_last() =~= strings_view(names@).subrange(0, i as int));
            assert(prefix2.last() == names@[i as int]@);
        }
        match parse_step_filename(names[i].as_str(), ".md") {
            Some(parsed) => {
                if parsed.0 > max_step {
                    max_step = parsed.0;
                    last_role = Some(parsed.1);
                }
            },
            None => {},
        }
        i = i + 1;
    }
    proof {
        assert(strings_view(names@).subrange(0, n as int) =~= strings_view(names@));
    }
    if max_step == 0 {
        (last_role, 1)
    } else if max_step == 0xffff_ffff {
        (last_role, max_step)
    } else {
        (last_role, max_step + 1)
    }
}

} // verus!

//! Environment diagnostics report.
//!
//! The probes themselves — reading the environment, opening the repository,
//! looking up binaries, connecting to the configured endpoint — are outside
//! work.  What is verified here is how their findings are aggregated into
//! issues and rendered.

use vstd::prelude::*;

use crate::config::{CiConfig, LlmProvider};
use crate::logging::BootstrapLogEntry;
use crate::text::{
    clone_strings, dec_i32, from_chars, join_strings, spec_dec_signed, spec_join_sep,
    strings_view,
};

verus! {

/// What the diagnostics command reports.
#[derive(Debug, Clone)]
pub struct DoctorReport {
    pub git_clean: bool,
    pub ci: CiDoctorReport,
    pub llm: LlmDoctorReport,
    pub bootstrap: Option<BootstrapDoctorReport>,
    pub issues: Vec<String>,
}

/// Which verification-command binaries could be found.
#[derive(Debug, Clone)]
pub struct CiDoctorReport {
    pub fmt_ready: bool,
    pub check_ready: bool,
    pub test_ready: bool,
    pub missing_binaries: Vec<String>,
}

impl CiDoctorReport {
    /// All three command binaries were found.
    pub fn all_ready(&self) -> (r: bool)
        ensures
            r == (self.fmt_ready && self.check_ready && self.test_ready),
    {
        self.fmt_ready && self.check_ready && self.test_ready
    }
}

/// Findings about the language-model endpoint configuration.
#[derive(Debug, Clone)]
pub struct LlmDoctorReport {
    pub provider: LlmProvider,
    pub token_env: String,
    pub token_loaded: bool,
    pub base_url: String,
    pub base_url_reachable: bool,
}

/// Findings about the bootstrap hook state.
#[derive(Debug, Clone)]
pub struct BootstrapDoctorReport {
    pub state_file: String,
    pub skip_markers_present: Vec<String>,
    pub last_entry: Option<BootstrapLogEntry>,
    pub healthy: bool,
    pub issues: Vec<String>,
}

/// Render a truth value for the report.
pub fn yes_no(value: bool) -> (r: &'static str)
    ensures
        value ==> r@ == "yes"@,
        !value ==> r@ == "no"@,
{
    if value {
        "yes"
    } else {
        "no"
    }
}

/// The missing-binary list: the first word of each command whose binary was
/// not found, in format, lint, test order.
pub open spec fn spec_missing_binaries(
    ci: CiConfig,
    fmt_ready: bool,
    check_ready: bool,
    test_ready: bool,
) -> Seq<Seq<char>> {
    let fmt_part: Seq<Seq<char>> = if !fmt_ready && ci.fmt@.len() > 0 {
        seq![ci.fmt@[0]@]
    } else {
        seq![]
    };
    let check_part: Seq<Seq<char>> = if !check_ready && ci.check@.len() > 0 {
        seq![ci.check@[0]@]
    } else {
        seq![]
    };
    let test_part: Seq<Seq<char>> = if !test_ready && ci.test@.len() > 0 {
        seq![ci.test@[0]@]
    } else {
        seq![]
    };
    fmt_part + check_part + test_part
}

/// Assemble the CI findings from the three binary probes.
pub fn check_ci_commands(
    ci: &CiConfig,
    fmt_ready: bool,
    check_ready: bool,
    test_ready: bool,
) -> (r: CiDoctorReport)
    ensures
        r.fmt_ready == fmt_ready,
        r.check_ready == check_ready,
        r.test_ready == test_ready,
        strings_view(r.missing_binaries@) == spec_missing_binaries(
            *ci,
            fmt_ready,
            check_ready,
            test_ready,
        ),
{
    let mut missing: Vec<String> = Vec::new();
    if !fmt_ready && ci.fmt.len() > 0 {
        missing.push(crate::config::clone_string(&ci.fmt[0]));
    }
    if !check_ready && ci.check.len() > 0 {
        missing.push(crate::config::clone_string(&ci.check[0]));
    }
    if !test_ready && ci.test.len() > 0 {
        missing.push(crate::config::clone_string(&ci.test[0]));
    }
    proof {
        assert(strings_view(missing@) =~= spec_missing_binaries(
            *ci,
            fmt_ready,
            check_ready,
            test_ready,
        ));
    }
    CiDoctorReport { fmt_ready, check_ready, test_ready, missing_binaries: missing }
}

/// The rendering of an optional exit code, as recorded in an issue.
pub open spec fn spec_exit_code_text(code: Option<i32>) -> Seq<char> {
    match code {
        Some(c) => "Some("@ + spec_dec_signed(c as int) + ")"@,
        None => "None"@,
    }
}

/// Assemble the bootstrap findings: an absent or unparsable state file was
/// already reported by the caller; a recorded skip without present markers,
/// or a recorded failure, makes the hook unhealthy.
pub fn bootstrap_health(
    state_file: String,
    skip_markers_present: Vec<String>,
    last_entry: Option<BootstrapLogEntry>,
    read_issues: Vec<String>,
) -> (r: BootstrapDoctorReport)
    ensures
        r.state_file == state_file,
        r.skip_markers_present == skip_markers_present,
        match (&last_entry, &r.last_entry) {
            (Some(_), Some(_)) | (None, None) => true,
            _ => false,
        },
        match &last_entry {
            None => {
                &&& r.healthy == false
                &&& strings_view(r.issues@) == strings_view(read_issues@)
            },
            Some(entry) => {
                if entry.skipped && skip_markers_present@.len() == 0 {
                    &&& r.healthy == false
                    &&& strings_view(r.issues@) == strings_view(read_issues@).push(
                        "Bootstrap skipped but no skip markers are currently present"@,
                    )
                } else if !entry.skipped && entry.exit_code != Some(0i32) {
                    &&& r.healthy == false
                    &&& strings_view(r.issues@) == strings_view(read_issues@).push(
                        "Last bootstrap run exited with code "@ + spec_exit_code_text(
                            entry.exit_code,
                        ),
                    )
                } else {
                    &&& r.healthy == true
                    &&& strings_view(r.issues@) == strings_view(read_issues@)
                }
            },
        },
{
    let mut issues = read_issues;
    let mut healthy = true;
    match &last_entry {
        Some(entry) => {
            if entry.skipped {
                if skip_markers_present.len() == 0 {
                    healthy = false;
                    let line = String::from_str(
                        "Bootstrap skipped but no skip markers are currently present",
                    );
                    proof {
                        assert(strings_view(issues@.push(line)) =~= strings_view(issues@).push(
                            line@,
                        ));
                    }
                    issues.push(line);
                }
            } else {
                let failed = match entry.exit_code {
                    Some(code) => code != 0,
                    None => true,
                };
                if failed {
                    healthy = false;
                    let mut line = String::from_str("Last bootstrap run exited with code ");
                    match entry.exit_code {
                        Some(code) => {
                            line.append("Some(");
                            let digits = dec_i32(code);
                            let digits_text = from_chars(&digits);
                            line.append(digits_text.as_str());
                            line.append(")");
                        },
                        None => {
                            line.append("None");
                        },
                    }
                    proof {
                        assert(line@ =~= "Last bootstrap run exited with code "@
                            + spec_exit_code_text(entry.exit_code));
                        assert(strings_view(issues@.push(line)) =~= strings_view(issues@).push(
                            line@,
                        ));
                    }
                    issues.push(line);
                }
            }
        },
        None => {
            healthy = false;
        },
    }
    BootstrapDoctorReport {
        state_file,
        skip_markers_present,
        last_entry,
        healthy,
        issues,
    }
}

/// The aggregated issue list: the repository issue, missing CI binaries,
/// the token and endpoint findings, then every bootstrap issue.
pub open spec fn spec_doctor_issues(
    git_issue: Option<String>,
    ci: CiDoctorReport,
    llm: LlmDoctorReport,
    bootstrap: Option<BootstrapDoctorReport>,
) -> Seq<Seq<char>> {
    let git_part: Seq<Seq<char>> = match git_issue {
        Some(issue) => seq![issue@],
        None => seq![],
    };
    let ci_part: Seq<Seq<char>> = if !(ci.fmt_ready && ci.check_ready && ci.test_ready) {
        seq![
            "Missing CI binaries: "@ + spec_join_sep(strings_view(ci.missing_binaries@), ", "@),
        ]
    } else {
        seq![]
    };
    let token_part: Seq<Seq<char>> = if !llm.token_loaded {
        seq!["LLM token "@ + llm.token_env@ + " is not set in the environment"@]
    } else {
        seq![]
    };
    let url_part: Seq<Seq<char>> = if !llm.base_url_reachable {
        seq!["Cannot reach configured LLM base URL "@ + llm.base_url@]
    } else {
        seq![]
    };
    let bootstrap_part: Seq<Seq<char>> = match bootstrap {
        Some(report) => strings_view(report.issues@),
        None => seq![],
    };
    git_part + ci_part + token_part + url_part + bootstrap_part
}

/// Aggregate the probe findings into the full report.
pub fn assemble_doctor_report(
    git_clean: bool,
    git_issue: Option<String>,
    ci: CiDoctorReport,
    llm: LlmDoctorReport,
    bootstrap: Option<BootstrapDoctorReport>,
) -> (r: DoctorReport)
    ensures
        r.git_clean == git_clean,
        r.ci == ci,
        r.llm == llm,
        match (&bootstrap, &r.bootstrap) {
            (Some(_), Some(_)) | (None, None) => true,
            _ => false,
        },
        strings_view(r.issues@) == spec_doctor_issues(git_issue, ci, llm, bootstrap),
{
    let mut issues: Vec<String> = Vec::new();
    let ghost expected = spec_doctor_issues(git_issue, ci, llm, bootstrap);
    match &git_issue {
        Some(issue) => {
            issues.push(crate::config::clone_string(issue));
        },
        None => {},
    }
    if !ci.all_ready() {
        let mut line = String::from_str("Missing CI binaries: ");
        let joined = join_strings(&ci.missing_binaries, ", ");
        line.append(joined.as_str());
        proof {
            assert(strings_view(issues@.push(line)) =~= strings_view(issues@).push(line@));
        }
        issues.push(line);
    }
    if !llm.token_loaded {
        let mut line = String::from_str("LLM token ");
        line.append(llm.token_env.as_str());
        line.append(" is not set in the environment");
        proof {
            assert(strings_view(issues@.push(line)) =~= strings_view(issues@).push(line@));
        }
        issues.push(line);
    }
    if !llm.base_url_reachable {
        let mut line = String::from_str("Cannot reach configured LLM base URL ");
        line.append(llm.base_url.as_str());
        proof {
            assert(strings_view(issues@.push(line)) =~= strings_view(issues@).push(line@));
        }
        issues.push(line);
    }
    match &bootstrap {
        Some(report) => {
            let mut extra = clone_strings(&report.issues);
            let ghost before = strings_view(issues@);
            let mut k: usize = 0;
            while k < extra.len()
                invariant
                    k <= extra@.len(),
                    strings_view(extra@) == strings_view(bootstrap.get_Some_0().issues@),
                    strings_view(issues@) == before + strings_view(extra@).subrange(0, k as int),
                decreases extra@.len() - k,
            {
                let item = crate::config::clone_string(&extra[k]);
                proof {
                    assert(strings_view(extra@)[k as int] == extra@[k as int]@);
                    assert(strings_view(issues@.push(item)) =~= strings_view(issues@).push(item@));
                    assert(before + strings_view(extra@).subrange(0, k + 1) =~= (before
                        + strings_view(extra@).subrange(0, k as int)).push(
                        strings_view(extra@)[k as int],
                    ));
                }
                issues.push(item);
                k = k + 1;
            }
            proof {
                assert(strings_view(extra@).subrange(0, strings_view(extra@).len() as int)
                    =~= strings_view(extra@));
            }
        },
        None => {},
    }
    proof {
        assert(strings_view(issues@) =~= expected);
    }
    DoctorReport { git_clean, ci, llm, bootstrap, issues }
}

/// The rendered report lines.
pub open spec fn spec_doctor_lines(r: DoctorReport) -> Seq<Seq<char>> {
    let head: Seq<Seq<char>> = seq![
        "Git clean: "@ + crate::status::spec_yes_no(r.git_clean),
        "CI binaries available \u{2192} fmt: "@ + crate::status::spec_yes_no(r.ci.fmt_ready)
            + " | check: "@ + crate::status::spec_yes_no(r.ci.check_ready) + " | test: "@
            + crate::status::spec_yes_no(r.ci.test_ready),
    ];
    let missing_part: Seq<Seq<char>> = if r.ci.missing_binaries@.len() > 0 {
        seq![
            "  Missing: "@ + spec_join_sep(strings_view(r.ci.missing_binaries@), ", "@),
        ]
    } else {
        seq![]
    };
    let llm_part: Seq<Seq<char>> = seq![
        "LLM token ("@ + r.llm.token_env@ + ") loaded: "@ + crate::status::spec_yes_no(
            r.llm.token_loaded,
        ),
        "LLM base URL ("@ + r.llm.base_url@ + ") reachable: "@ + crate::status::spec_yes_no(
            r.llm.base_url_reachable,
        ),
    ];
    let bootstrap_part: Seq<Seq<char>> = match r.bootstrap {
        Some(b) => {
            let health_line: Seq<Seq<char>> = seq![
                "Bootstrap healthy (state: "@ + b.state_file@ + "): "@
                    + crate::status::spec_yes_no(b.healthy),
            ];
            let markers_line: Seq<Seq<char>> = if b.skip_markers_present@.len() > 0 {
                seq![
                    "  Skip markers present: "@ + spec_join_sep(
                        strings_view(b.skip_markers_present@),
                        ", "@,
                    ),
                ]
            } else {
                seq![]
            };
            health_line + markers_line
        },
        None => seq![],
    };
    let issues_part: Seq<Seq<char>> = if r.issues@.len() == 0 {
        seq!["\u{2705} All doctor checks passed"@]
    } else {
        seq!["\u{26a0}\u{fe0f} Issues detected:"@] + strings_view(r.issues@).map_values(
            |issue: Seq<char>| "- "@ + issue,
        )
    };
    head + missing_part + llm_part + bootstrap_part + issues_part
}

impl DoctorReport {
    /// Render the report, one line per finding.
    #[verifier::rlimit(80)]
    pub fn format_lines(&self) -> (r: Vec<String>)
        ensures
            strings_view(r@) == spec_doctor_lines(*self),
    {
        let mut lines: Vec<String> = Vec::new();
        let mut git_line = String::from_str("Git clean: ");
        git_line.append(yes_no(self.git_clean));
        lines.push(git_line);
        let mut ci_line = String::from_str("CI binaries available \u{2192} fmt: ");
        ci_line.append(yes_no(self.ci.fmt_ready));
        ci_line.append(" | check: ");
        ci_line.append(yes_no(self.ci.check_ready));
        ci_line.append(" | test: ");
        ci_line.append(yes_no(self.ci.test_ready));
        lines.push(ci_line);
        if self.ci.missing_binaries.len() > 0 {
            let mut missing_line = String::from_str("  Missing: ");
            let joined = join_strings(&self.ci.missing_binaries, ", ");
            missing_line.append(joined.as_str());
            lines.push(missing_line);
        }
        let mut token_line = String::from_str("LLM token (");
        token_line.append(self.llm.token_env.as_str());
        token_line.append(") loaded: ");
        token_line.append(yes_no(self.llm.token_loaded));
        lines.push(token_line);
        let mut url_line = String::from_str("LLM base URL (");
        url_line.append(self.llm.base_url.as_str());
        url_line.append(") reachable: ");
        url_line.append(yes_no(self.llm.base_url_reachable));
        lines.push(url_line);
        match &self.bootstrap {
            Some(b) => {
                let mut health_line = String::from_str("Bootstrap healthy (state: ");
                health_line.append(b.state_file.as_str());
                health_line.append("): ");
                health_line.append(yes_no(b.healthy));
                lines.push(health_line);
                if b.skip_markers_present.len() > 0 {
                    let mut markers_line = String::from_str("  Skip markers present: ");
                    let joined = join_strings(&b.skip_markers_present, ", ");
                    markers_line.append(joined.as_str());
                    lines.push(markers_line);
                }
            },
            None => {},
        }
        if self.issues.len() == 0 {
            lines.push(String::from_str("\u{2705} All doctor checks passed"));
        } else {
            lines.push(String::from_str("\u{26a0}\u{fe0f} Issues detected:"));
            let ghost before = strings_view(lines@);
            let ghost mapped = strings_view(self.issues@).map_values(
                |issue: Seq<char>| "- "@ + issue,
            );
            let mut k: usize = 0;
            while k < self.issues.len()
                invariant
                    k <= self.issues@.len(),
                    mapped == strings_view(self.issues@).map_values(
                        |issue: Seq<char>| "- "@ + issue,
                    ),
                    strings_view(lines@) == before + mapped.subrange(0, k as int),
                decreases self.issues@.len() - k,
            {
                proof {
                    assert(strings_view(self.issues@)[k as int] == self.issues@[k as int]@);
                    assert(mapped[k as int] == "- "@ + strings_view(self.issues@)[k as int]);
                }
                let mut bullet = String::from_str("- ");
                bullet.append(self.issues[k].as_str());
                proof {
                    assert(strings_view(lines@.push(bullet)) =~= strings_view(lines@).push(
                        bullet@,
                    ));
                    assert(before + mapped.subrange(0, k + 1) =~= (before + mapped.subrange(
                        0,
                        k as int,
                    )).push(mapped[k as int]));
                }
                lines.push(bullet);
                k = k + 1;
            }
            proof {
                assert(mapped.subrange(0, mapped.len() as int) =~= mapped);
            }
        }
        proof {
            assert(strings_view(lines@) =~= spec_doctor_lines(*self));
        }
        lines
    }
}

} // verus!

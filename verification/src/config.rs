//! Validated configuration of the orchestration loop.
//!
//! Reading the YAML file happens outside the verified core; the structures
//! here hold the plain values the core depends on, and `validate` states
//! exactly which configurations are accepted.

use vstd::prelude::*;

use crate::text::{spec_trim, to_chars, trim_chars, from_chars};

verus! {

/// A trimmed text is empty.
pub open spec fn spec_blank(s: Seq<char>) -> bool {
    spec_trim(s).len() == 0
}

/// Whether a text is blank: empty after trimming.
pub fn is_blank(s: &str) -> (r: bool)
    ensures
        r == spec_blank(s@),
{
    let chars = to_chars(s);
    let trimmed = trim_chars(&chars);
    trimmed.len() == 0
}

/// Top-level configuration.
#[derive(Debug, Clone)]
pub struct TddConfig {
    pub workspace: WorkspaceConfig,
    pub roles: RoleConfigs,
    pub llm: LlmConfig,
    pub ci: CiConfig,
    pub commit_author: CommitAuthor,
}

/// Every field-level check the configuration must pass.
pub open spec fn spec_config_valid(c: TddConfig) -> bool {
    &&& c.ci.fmt@.len() > 0
    &&& c.ci.check@.len() > 0
    &&& c.ci.test@.len() > 0
    &&& !spec_blank(c.roles.tester.model@)
    &&& !spec_blank(c.roles.implementor.model@)
    &&& !spec_blank(c.roles.refactorer.model@)
    &&& !spec_blank(c.llm.base_url@)
    &&& !spec_blank(c.llm.api_key_env@)
    &&& !spec_blank(c.commit_author.name@)
    &&& !spec_blank(c.commit_author.email@)
}

impl TddConfig {
    /// Normalize the workspace limits and check every field; accepted
    /// exactly when every component check passes.
    pub fn validate(&mut self) -> (r: Result<(), ConfigError>)
        ensures
            r is Ok <==> spec_config_valid(*old(self)),
            final(self).roles == old(self).roles,
            final(self).llm == old(self).llm,
            final(self).ci == old(self).ci,
            final(self).commit_author == old(self).commit_author,
            final(self).workspace.kata_file == old(self).workspace.kata_file,
            final(self).workspace.plan_dir == old(self).workspace.plan_dir,
            final(self).workspace.log_dir == old(self).workspace.log_dir,
            r is Ok ==> final(self).workspace.max_steps == (if old(self).workspace.max_steps == 0 {
                10u32
            } else {
                old(self).workspace.max_steps
            }),
            r is Ok ==> final(self).workspace.max_attempts_per_agent == (if old(
                self,
            ).workspace.max_attempts_per_agent == 0 {
                2u32
            } else {
                old(self).workspace.max_attempts_per_agent
            }),
    {
        self.workspace.normalize();
        match self.ci.ensure_all_commands_present() {
            Ok(()) => {},
            Err(e) => {
                return Err(e);
            },
        }
        match self.roles.validate() {
            Ok(()) => {},
            Err(e) => {
                return Err(e);
            },
        }
        match self.llm.validate() {
            Ok(()) => {},
            Err(e) => {
                return Err(e);
            },
        }
        match self.commit_author.validate() {
            Ok(()) => {},
            Err(e) => {
                return Err(e);
            },
        }
        Ok(())
    }
}

/// Workspace layout and step limits.
#[derive(Debug, Clone, PartialEq, Eq)]
pub struct WorkspaceConfig {
    pub kata_file: String,
    pub plan_dir: String,
    pub log_dir: String,
    pub max_steps: u32,
    pub max_attempts_per_agent: u32,
}

impl WorkspaceConfig {
    pub fn default_max_steps() -> (r: u32)
        ensures
            r == 10,
    {
        10
    }

    pub fn default_attempts() -> (r: u32)
        ensures
            r == 2,
    {
        2
    }

    /// Zero limits fall back to their defaults.
    pub fn normalize(&mut self)
        ensures
            final(self).kata_file == old(self).kata_file,
            final(self).plan_dir == old(self).plan_dir,
            final(self).log_dir == old(self).log_dir,
            final(self).max_steps == (if old(self).max_steps == 0 {
                10u32
            } else {
                old(self).max_steps
            }),
            final(self).max_attempts_per_agent == (if old(self).max_attempts_per_agent == 0 {
                2u32
            } else {
                old(self).max_attempts_per_agent
            }),
    {
        if self.max_steps == 0 {
            self.max_steps = Self::default_max_steps();
        }
        if self.max_attempts_per_agent == 0 {
            self.max_attempts_per_agent = Self::default_attempts();
        }
    }
}

/// Model selection for the three roles.
#[derive(Debug, Clone, PartialEq, Eq)]
pub struct RoleConfigs {
    pub tester: RoleConfig,
    pub implementor: RoleConfig,
    pub refactorer: RoleConfig,
}

impl RoleConfigs {
    /// Accepted exactly when every role names a model.
    pub fn validate(&self) -> (r: Result<(), ConfigError>)
        ensures
            r is Ok <==> !spec_blank(self.tester.model@) && !spec_blank(self.implementor.model@)
                && !spec_blank(self.refactorer.model@),
    {
        match self.tester.validate("tester") {
            Ok(()) => {},
            Err(e) => {
                return Err(e);
            },
        }
        match self.implementor.validate("implementor") {
            Ok(()) => {},
            Err(e) => {
                return Err(e);
            },
        }
        match self.refactorer.validate("refactorer") {
            Ok(()) => {},
            Err(e) => {
                return Err(e);
            },
        }
        Ok(())
    }
}

/// Model selection for one role.
#[derive(Debug, Clone, PartialEq, Eq)]
pub struct RoleConfig {
    pub model: String,
}

impl RoleConfig {
    /// Accepted exactly when the model name is not blank; the error names
    /// the offending field.
    pub fn validate(&self, role: &str) -> (r: Result<(), ConfigError>)
        ensures
            r is Ok <==> !spec_blank(self.model@),
            match r {
                Ok(()) => true,
                Err(e) => e matches ConfigError::InvalidField { field, reason } && field@
                    == "roles."@ + role@ + ".model"@ && reason@ == "model cannot be empty"@,
            },
    {
        if is_blank(self.model.as_str()) {
            let mut field = String::from_str("roles.");
            field.append(role);
            field.append(".model");
            return Err(ConfigError::InvalidField {
                field,
                reason: String::from_str("model cannot be empty"),
            });
        }
        Ok(())
    }
}

/// Language-model provider selection.
#[derive(Debug, Clone, Copy, PartialEq, Eq, Structural)]
pub enum LlmProvider {
    Openai,
    GithubCopilot,
}

impl LlmProvider {
    pub fn as_str(self) -> (r: &'static str)
        ensures
            self == LlmProvider::Openai ==> r@ == "openai"@,
            self == LlmProvider::GithubCopilot ==> r@ == "github_copilot"@,
    {
        match self {
            Self::Openai => "openai",
            Self::GithubCopilot => "github_copilot",
        }
    }
}

impl Default for LlmProvider {
    /// The provider defaults to the OpenAI-compatible endpoint.
    fn default() -> (r: Self)
        ensures
            r == LlmProvider::Openai,
    {
        LlmProvider::Openai
    }
}

/// Endpoint configuration for the language-model backend.
#[derive(Debug, Clone, PartialEq, Eq)]
pub struct LlmConfig {
    pub provider: LlmProvider,
    pub base_url: String,
    pub api_key_env: String,
    pub api_version: Option<String>,
}

impl LlmConfig {
    /// Accepted exactly when the base URL and key variable are not blank;
    /// a blank base URL is reported first.
    pub fn validate(&self) -> (r: Result<(), ConfigError>)
        ensures
            r is Ok <==> !spec_blank(self.base_url@) && !spec_blank(self.api_key_env@),
            match r {
                Ok(()) => true,
                Err(e) => e matches ConfigError::InvalidField { field, reason } && (if spec_blank(
                    self.base_url@,
                ) {
                    field@ == "llm.base_url"@ && reason@ == "base_url cannot be empty"@
                } else {
                    field@ == "llm.api_key_env"@ && reason@ == "api_key_env cannot be empty"@
                }),
            },
    {
        if is_blank(self.base_url.as_str()) {
            return Err(ConfigError::InvalidField {
                field: String::from_str("llm.base_url"),
                reason: String::from_str("base_url cannot be empty"),
            });
        }
        if is_blank(self.api_key_env.as_str()) {
            return Err(ConfigError::InvalidField {
                field: String::from_str("llm.api_key_env"),
                reason: String::from_str("api_key_env cannot be empty"),
            });
        }
        Ok(())
    }

    /// The API version to send: the configured one, with a fixed default for
    /// GitHub Copilot when none is configured.
    pub fn effective_api_version(&self) -> (r: Option<String>)
        ensures
            match self.provider {
                LlmProvider::GithubCopilot => match r {
                    Some(v) => match self.api_version {
                        Some(configured) => v@ == configured@,
                        None => v@ == "2023-12-01"@,
                    },
                    None => false,
                },
                LlmProvider::Openai => match (r, &self.api_version) {
                    (Some(v), Some(configured)) => v@ == configured@,
                    (None, None) => true,
                    _ => false,
                },
            },
    {
        match self.provider {
            LlmProvider::GithubCopilot => match &self.api_version {
                Some(v) => Some(clone_string(v)),
                None => Some(String::from_str("2023-12-01")),
            },
            LlmProvider::Openai => match &self.api_version {
                Some(v) => Some(clone_string(v)),
                None => None,
            },
        }
    }
}

/// A copy of the string with the same characters.
pub fn clone_string(s: &String) -> (r: String)
    ensures
        r@ == s@,
{
    let chars = to_chars(s.as_str());
    from_chars(&chars)
}

/// The verification-gate command lines.
#[derive(Debug, Clone, PartialEq, Eq)]
pub struct CiConfig {
    pub fmt: Vec<String>,
    pub check: Vec<String>,
    pub test: Vec<String>,
}

impl CiConfig {
    /// Accepted exactly when none of the three command lists is empty; the
    /// error names the first empty one.
    pub fn ensure_all_commands_present(&self) -> (r: Result<(), ConfigError>)
        ensures
            r is Ok <==> self.fmt@.len() > 0 && self.check@.len() > 0 && self.test@.len() > 0,
            match r {
                Ok(()) => true,
                Err(e) => e matches ConfigError::InvalidField { field, reason } && reason@
                    == "command list cannot be empty"@ && (if self.fmt@.len() == 0 {
                    field@ == "ci.fmt"@
                } else if self.check@.len() == 0 {
                    field@ == "ci.check"@
                } else {
                    field@ == "ci.test"@
                }),
            },
    {
        if self.fmt.len() == 0 {
            return Err(ConfigError::InvalidField {
                field: String::from_str("ci.fmt"),
                reason: String::from_str("command list cannot be empty"),
            });
        }
        if self.check.len() == 0 {
            return Err(ConfigError::InvalidField {
                field: String::from_str("ci.check"),
                reason: String::from_str("command list cannot be empty"),
            });
        }
        if self.test.len() == 0 {
            return Err(ConfigError::InvalidField {
                field: String::from_str("ci.test"),
                reason: String::from_str("command list cannot be empty"),
            });
        }
        Ok(())
    }
}

/// Name and address recorded as author of every commit.
#[derive(Debug, Clone, PartialEq, Eq)]
pub struct CommitAuthor {
    pub name: String,
    pub email: String,
}

impl CommitAuthor {
    /// Accepted exactly when both fields are non-blank; a blank name is
    /// reported first.
    pub fn validate(&self) -> (r: Result<(), ConfigError>)
        ensures
            r is Ok <==> !spec_blank(self.name@) && !spec_blank(self.email@),
            match r {
                Ok(()) => true,
                Err(e) => e matches ConfigError::InvalidField { field, reason } && (if spec_blank(
                    self.name@,
                ) {
                    field@ == "commit_author.name"@ && reason@ == "name cannot be empty"@
                } else {
                    field@ == "commit_author.email"@ && reason@ == "email cannot be empty"@
                }),
            },
    {
        if is_blank(self.name.as_str()) {
            return Err(ConfigError::InvalidField {
                field: String::from_str("commit_author.name"),
                reason: String::from_str("name cannot be empty"),
            });
        }
        if is_blank(self.email.as_str()) {
            return Err(ConfigError::InvalidField {
                field: String::from_str("commit_author.email"),
                reason: String::from_str("email cannot be empty"),
            });
        }
        Ok(())
    }
}

/// A configuration field that failed validation.
#[derive(Debug)]
pub enum ConfigError {
    InvalidField { field: String, reason: String },
}

} // verus!

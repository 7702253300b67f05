//! The configuration data the decision core works on: one rule set per tool
//! and an options bundle. Loading these from a file is the surrounding
//! program's concern; the core only reads the loaded values.

use vstd::prelude::*;
use vstd::string::StringExecFns;

verus! {

/// The three ordered pattern lists of one tool's policy.
#[derive(Debug)]
pub struct Rules {
    pub allow: Vec<String>,
    pub confirm: Vec<String>,
    pub deny: Vec<String>,
}

impl Default for Rules {
    /// Three empty pattern lists.
    fn default() -> (r: Rules)
        ensures
            r.allow@.len() == 0,
            r.confirm@.len() == 0,
            r.deny@.len() == 0,
    {
        Rules { allow: Vec::new(), confirm: Vec::new(), deny: Vec::new() }
    }
}

/// The policy configuration of one tool.
#[derive(Debug)]
pub struct ToolConfig {
    pub rules: Rules,
}

impl Default for ToolConfig {
    /// An empty rule set.
    fn default() -> (r: ToolConfig)
        ensures
            r.rules.allow@.len() == 0,
            r.rules.confirm@.len() == 0,
            r.rules.deny@.len() == 0,
    {
        ToolConfig { rules: Rules::default() }
    }
}

/// The tie-breaker used only when both tools' rule sets match a command.
#[derive(Debug, Clone, Copy, PartialEq, Eq, Structural)]
pub enum Priority {
    Git,
    Gh,
}

/// The configuration name of a priority value.
pub open spec fn priority_label(p: Priority) -> Seq<char> {
    match p {
        Priority::Git => "git"@,
        Priority::Gh => "gh"@,
    }
}

impl Priority {
    /// The name the configuration file uses for this value.
    pub fn label(&self) -> (r: String)
        ensures
            r@ == priority_label(*self),
    {
        match self {
            Priority::Git => String::from_str("git"),
            Priority::Gh => String::from_str("gh"),
        }
    }
}

impl Default for Priority {
    /// The version-control tool wins ties unless configured otherwise.
    fn default() -> (r: Priority)
        ensures
            r == Priority::Git,
    {
        Priority::Git
    }
}

/// The options bundle: audit logging, the default decision when no rule
/// matches, and the ambiguity tie-breaker.
#[derive(Debug)]
pub struct Options {
    pub log: bool,
    pub deny_by_default: bool,
    pub priority: Priority,
    pub log_file: Option<String>,
}

impl Default for Options {
    /// Logging on, deny by default, version-control priority, no explicit
    /// log file.
    fn default() -> (r: Options)
        ensures
            r.log,
            r.deny_by_default,
            r.priority == Priority::Git,
            r.log_file is None,
    {
        Options { log: true, deny_by_default: true, priority: Priority::Git, log_file: None }
    }
}

/// The whole loaded configuration: one policy per tool, plus options.
#[derive(Debug)]
pub struct Config {
    pub git: ToolConfig,
    pub gh: ToolConfig,
    pub options: Options,
}

impl Default for Config {
    /// Empty rule sets for both tools and the default options: with
    /// `deny_by_default` set, a missing configuration denies everything.
    fn default() -> (r: Config)
        ensures
            r.git.rules.allow@.len() == 0,
            r.git.rules.confirm@.len() == 0,
            r.git.rules.deny@.len() == 0,
            r.gh.rules.allow@.len() == 0,
            r.gh.rules.confirm@.len() == 0,
            r.gh.rules.deny@.len() == 0,
            r.options.log,
            r.options.deny_by_default,
            r.options.priority == Priority::Git,
            r.options.log_file is None,
    {
        Config { git: ToolConfig::default(), gh: ToolConfig::default(), options: Options::default() }
    }
}

} // verus!

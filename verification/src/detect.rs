//! The tool classifier: decides whether an argument vector targets the
//! version-control tool (`git`) or the code-hosting tool (`gh`).
//!
//! Classification first asks each tool's rule set whether any of its
//! patterns matches the command. When exactly one rule set matches, that
//! tool wins; when both match, the configured priority breaks the tie; when
//! neither matches, the first token is looked up in two fixed, disjoint
//! tables of known first-level subcommands. A command that still cannot be
//! placed classifies as nothing — a first-class outcome, not an error.

use vstd::prelude::*;
use vstd::string::StringExecFns;

use crate::config::{Config, Priority, Rules};
use crate::rules::{has_any_match, join_with_spaces, rules_have_match, str_eq};

verus! {

/// The external tool an invocation targets.
#[derive(Debug, Clone, Copy, PartialEq, Eq, Structural)]
pub enum Tool {
    Git,
    Gh,
}

/// The name of the tool's binary.
pub open spec fn tool_label(t: Tool) -> Seq<char> {
    match t {
        Tool::Git => "git"@,
        Tool::Gh => "gh"@,
    }
}

impl Tool {
    /// The name of this tool's binary.
    pub fn label(&self) -> (r: String)
        ensures
            r@ == tool_label(*self),
    {
        match self {
            Tool::Git => String::from_str("git"),
            Tool::Gh => String::from_str("gh"),
        }
    }
}

/// Membership in the fixed table of known first-level version-control
/// subcommands.
pub open spec fn is_git_subcommand(s: Seq<char>) -> bool {
    ||| s == "add"@
    ||| s == "bisect"@
    ||| s == "blame"@
    ||| s == "branch"@
    ||| s == "checkout"@
    ||| s == "cherry-pick"@
    ||| s == "clean"@
    ||| s == "clone"@
    ||| s == "commit"@
    ||| s == "config"@
    ||| s == "diff"@
    ||| s == "fetch"@
    ||| s == "init"@
    ||| s == "log"@
    ||| s == "merge"@
    ||| s == "mv"@
    ||| s == "pull"@
    ||| s == "push"@
    ||| s == "rebase"@
    ||| s == "reflog"@
    ||| s == "remote"@
    ||| s == "reset"@
    ||| s == "restore"@
    ||| s == "revert"@
    ||| s == "rm"@
    ||| s == "show"@
    ||| s == "stash"@
    ||| s == "submodule"@
    ||| s == "switch"@
    ||| s == "tag"@
    ||| s == "worktree"@
}

/// Membership in the fixed table of known first-level code-hosting
/// subcommands.
pub open spec fn is_gh_subcommand(s: Seq<char>) -> bool {
    ||| s == "api"@
    ||| s == "auth"@
    ||| s == "cache"@
    ||| s == "codespace"@
    ||| s == "extension"@
    ||| s == "gist"@
    ||| s == "gpg-key"@
    ||| s == "issue"@
    ||| s == "label"@
    ||| s == "pr"@
    ||| s == "project"@
    ||| s == "release"@
    ||| s == "repo"@
    ||| s == "ruleset"@
    ||| s == "run"@
    ||| s == "search"@
    ||| s == "secret"@
    ||| s == "ssh-key"@
    ||| s == "variable"@
}

/// The fallback classification by first token: the tool whose table alone
/// holds the token, and nothing when the vector is empty, the token is in
/// neither table, or — defensively — in both.
pub open spec fn subcommand_tool(args: Seq<Seq<char>>) -> Option<Tool> {
    if args.len() == 0 {
        None
    } else if is_git_subcommand(args[0]) && !is_gh_subcommand(args[0]) {
        Some(Tool::Git)
    } else if !is_git_subcommand(args[0]) && is_gh_subcommand(args[0]) {
        Some(Tool::Gh)
    } else {
        None
    }
}

/// The classification of an argument vector: the tool whose rule set alone
/// matches; the priority tool when both match; the subcommand fallback when
/// neither matches.
pub open spec fn detect_tool(
    git_rules: Rules,
    gh_rules: Rules,
    priority: Priority,
    args: Seq<Seq<char>>,
) -> Option<Tool> {
    let c = join_with_spaces(args);
    let git_match = rules_have_match(git_rules, c);
    let gh_match = rules_have_match(gh_rules, c);
    if git_match && !gh_match {
        Some(Tool::Git)
    } else if !git_match && gh_match {
        Some(Tool::Gh)
    } else if git_match && gh_match {
        match priority {
            Priority::Git => Some(Tool::Git),
            Priority::Gh => Some(Tool::Gh),
        }
    } else {
        subcommand_tool(args)
    }
}

/// Whether the token stands in the version-control subcommand table.
fn is_git_command(s: &str) -> (r: bool)
    ensures
        r == is_git_subcommand(s@),
{
    str_eq(s, "add") || str_eq(s, "bisect") || str_eq(s, "blame") || str_eq(s, "branch") || str_eq(
        s,
        "checkout",
    ) || str_eq(s, "cherry-pick") || str_eq(s, "clean") || str_eq(s, "clone") || str_eq(s, "commit")
        || str_eq(s, "config") || str_eq(s, "diff") || str_eq(s, "fetch") || str_eq(s, "init")
        || str_eq(s, "log") || str_eq(s, "merge") || str_eq(s, "mv") || str_eq(s, "pull") || str_eq(
        s,
        "push",
    ) || str_eq(s, "rebase") || str_eq(s, "reflog") || str_eq(s, "remote") || str_eq(s, "reset")
        || str_eq(s, "restore") || str_eq(s, "revert") || str_eq(s, "rm") || str_eq(s, "show")
        || str_eq(s, "stash") || str_eq(s, "submodule") || str_eq(s, "switch") || str_eq(s, "tag")
        || str_eq(s, "worktree")
}

/// Whether the token stands in the code-hosting subcommand table.
fn is_gh_command(s: &str) -> (r: bool)
    ensures
        r == is_gh_subcommand(s@),
{
    str_eq(s, "api") || str_eq(s, "auth") || str_eq(s, "cache") || str_eq(s, "codespace") || str_eq(
        s,
        "extension",
    ) || str_eq(s, "gist") || str_eq(s, "gpg-key") || str_eq(s, "issue") || str_eq(s, "label")
        || str_eq(s, "pr") || str_eq(s, "project") || str_eq(s, "release") || str_eq(s, "repo")
        || str_eq(s, "ruleset") || str_eq(s, "run") || str_eq(s, "search") || str_eq(s, "secret")
        || str_eq(s, "ssh-key") || str_eq(s, "variable")
}

/// Classifies an argument vector by its first token against the two static
/// subcommand tables.
pub fn detect_by_subcommand(args: &[String]) -> (r: Option<Tool>)
    ensures
        r == subcommand_tool(args.deep_view()),
{
    if args.len() == 0 {
        return None;
    }
    proof {
        assert(args.deep_view()[0] == args@[0]@);
    }
    let sub = args[0].as_str();
    let is_git = is_git_command(sub);
    let is_gh = is_gh_command(sub);
    if is_git && !is_gh {
        Some(Tool::Git)
    } else if !is_git && is_gh {
        Some(Tool::Gh)
    } else {
        None
    }
}

/// Detects whether an argument vector belongs to the version-control tool or
/// the code-hosting tool: by the two rule sets first, by the priority
/// setting when both match, and by the static subcommand tables when
/// neither does.
pub fn detect(config: &Config, args: &[String]) -> (r: Option<Tool>)
    ensures
        r == detect_tool(config.git.rules, config.gh.rules, config.options.priority,
            args.deep_view(),
        ),
{
    let git_match = has_any_match(&config.git.rules, args);
    let gh_match = has_any_match(&config.gh.rules, args);
    if git_match && !gh_match {
        Some(Tool::Git)
    } else if !git_match && gh_match {
        Some(Tool::Gh)
    } else if git_match && gh_match {
        match config.options.priority {
            Priority::Git => Some(Tool::Git),
            Priority::Gh => Some(Tool::Gh),
        }
    } else {
        detect_by_subcommand(args)
    }
}

/// Law: when exactly one tool's rule set matches the command, that tool is
/// the classification, and the priority setting plays no part in it.
pub proof fn lemma_detect_ignores_priority_when_disjoint(
    git_rules: Rules,
    gh_rules: Rules,
    p1: Priority,
    p2: Priority,
    args: Seq<Seq<char>>,
)
    requires
        rules_have_match(git_rules, join_with_spaces(args)) != rules_have_match(
            gh_rules,
            join_with_spaces(args),
        ),
    ensures
        detect_tool(git_rules, gh_rules, p1, args) == detect_tool(git_rules, gh_rules, p2, args),
        rules_have_match(git_rules, join_with_spaces(args)) ==> detect_tool(
            git_rules,
            gh_rules,
            p1,
            args,
        ) == Some(Tool::Git),
        rules_have_match(gh_rules, join_with_spaces(args)) ==> detect_tool(
            git_rules,
            gh_rules,
            p1,
            args,
        ) == Some(Tool::Gh),
{
}

/// Law: when both tools' rule sets match the command, the priority setting
/// alone decides the classification — switching it flips the result.
pub proof fn lemma_detect_ambiguity_follows_priority(
    git_rules: Rules,
    gh_rules: Rules,
    args: Seq<Seq<char>>,
)
    requires
        rules_have_match(git_rules, join_with_spaces(args)),
        rules_have_match(gh_rules, join_with_spaces(args)),
    ensures
        detect_tool(git_rules, gh_rules, Priority::Git, args) == Some(Tool::Git),
        detect_tool(git_rules, gh_rules, Priority::Gh, args) == Some(Tool::Gh),
{
}

/// The tool a leading `--git` or `--gh` flag forces, if one is there.
pub open spec fn forced_tool(args: Seq<Seq<char>>) -> Option<Tool> {
    if args.len() > 0 && args[0] == "--git"@ {
        Some(Tool::Git)
    } else if args.len() > 0 && args[0] == "--gh"@ {
        Some(Tool::Gh)
    } else {
        None
    }
}

/// Copies the argument vector from `start` on.
fn copy_args(args: &[String], start: usize) -> (r: Vec<String>)
    requires
        start <= args@.len(),
    ensures
        r.deep_view() == args.deep_view().skip(start as int),
{
    let mut out: Vec<String> = Vec::new();
    let mut i: usize = start;
    while i < args.len()
        invariant
            start <= i <= args@.len(),
            out@ =~= args@.subrange(start as int, i as int),
        decreases args@.len() - i,
    {
        out.push(args[i].clone());
        proof {
            assert(args@.subrange(start as int, i as int + 1) =~= args@.subrange(
                start as int,
                i as int,
            ).push(args@[i as int]));
        }
        i += 1;
    }
    proof {
        assert forall|k: int| 0 <= k < out@.len() implies out.deep_view()[k] == args.deep_view().skip(
            start as int,
        )[k] by {
            assert(out.deep_view()[k] == out@[k]@);
            assert(args.deep_view()[start + k] == args@[start + k]@);
        }
        assert(out.deep_view() =~= args.deep_view().skip(start as int));
    }
    out
}

/// Splits a leading tool-forcing flag off the raw argument vector: the
/// forced tool, if any, and the arguments that remain for the core.
pub fn parse_tool_flag(args: &[String]) -> (r: (Option<Tool>, Vec<String>))
    ensures
        r.0 == forced_tool(args.deep_view()),
        r.0 is Some ==> r.1.deep_view() == args.deep_view().skip(1),
        r.0 is None ==> r.1.deep_view() == args.deep_view(),
{
    proof {
        if args@.len() > 0 {
            assert(args.deep_view()[0] == args@[0]@);
        }
    }
    if args.len() > 0 && str_eq(args[0].as_str(), "--git") {
        return (Some(Tool::Git), copy_args(args, 1));
    }
    if args.len() > 0 && str_eq(args[0].as_str(), "--gh") {
        return (Some(Tool::Gh), copy_args(args, 1));
    }
    proof {
        assert(args.deep_view().skip(0) =~= args.deep_view());
    }
    (None, copy_args(args, 0))
}

} // verus!

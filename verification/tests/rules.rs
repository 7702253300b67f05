use gg::config::Rules;
use gg::rules::{evaluate, has_any_match, matches_pattern, Decision};

fn make_rules(allow: Vec<&str>, confirm: Vec<&str>, deny: Vec<&str>) -> Rules {
    Rules {
        allow: allow.into_iter().map(String::from).collect(),
        confirm: confirm.into_iter().map(String::from).collect(),
        deny: deny.into_iter().map(String::from).collect(),
    }
}

fn args(s: &str) -> Vec<String> {
    s.split_whitespace().map(String::from).collect()
}

#[test]
fn test_exact_allow() {
    let rules = make_rules(vec!["pr list"], vec![], vec![]);
    assert_eq!(evaluate(&rules, &args("pr list"), true), Decision::Allow);
}

#[test]
fn test_prefix_allow() {
    let rules = make_rules(vec!["pr list"], vec![], vec![]);
    assert_eq!(
        evaluate(&rules, &args("pr list --json url"), true),
        Decision::Allow
    );
}

#[test]
fn test_glob_allow() {
    let rules = make_rules(vec!["api GET *"], vec![], vec![]);
    assert_eq!(
        evaluate(&rules, &args("api GET /repos/foo/bar"), true),
        Decision::Allow
    );
}

#[test]
fn test_deny_priority_over_allow() {
    let rules = make_rules(vec!["pr *"], vec![], vec!["pr merge"]);
    assert_eq!(evaluate(&rules, &args("pr merge"), true), Decision::Deny);
}

#[test]
fn test_confirm() {
    let rules = make_rules(vec![], vec!["pr create"], vec![]);
    assert_eq!(
        evaluate(&rules, &args("pr create"), true),
        Decision::Confirm
    );
}

#[test]
fn test_default_deny() {
    let rules = make_rules(vec!["pr list"], vec![], vec![]);
    assert_eq!(
        evaluate(&rules, &args("repo delete foo"), true),
        Decision::DefaultDeny
    );
}

#[test]
fn test_default_allow() {
    let rules = make_rules(vec![], vec![], vec![]);
    assert_eq!(evaluate(&rules, &args("anything"), false), Decision::Allow);
}

#[test]
fn test_deny_over_confirm() {
    let rules = make_rules(vec![], vec!["pr *"], vec!["pr merge"]);
    assert_eq!(evaluate(&rules, &args("pr merge"), true), Decision::Deny);
    assert_eq!(
        evaluate(&rules, &args("pr create"), true),
        Decision::Confirm
    );
}

#[test]
fn test_has_any_match() {
    let rules = make_rules(vec!["push"], vec![], vec!["push --force*"]);
    assert!(has_any_match(&rules, &args("push origin main")));
    assert!(has_any_match(&rules, &args("push --force")));
    assert!(!has_any_match(&rules, &args("pull")));
}

#[test]
fn test_git_push_force_deny() {
    let rules = make_rules(vec!["push"], vec![], vec!["push --force*", "push -f*"]);
    assert_eq!(
        evaluate(&rules, &args("push --force origin main"), true),
        Decision::Deny
    );
    assert_eq!(
        evaluate(&rules, &args("push origin main"), true),
        Decision::Allow
    );
}

#[test]
fn test_empty_rules_default_deny_scenario() {
    let rules = make_rules(vec![], vec![], vec![]);
    assert_eq!(
        evaluate(&rules, &args("status"), true),
        Decision::DefaultDeny
    );
}

#[test]
fn test_starless_prefix_needs_token_boundary() {
    assert!(matches_pattern("push", "push origin"));
    assert!(!matches_pattern("push", "pushx"));
    assert!(!matches_pattern("push", "pus"));
    assert!(matches_pattern("push", "push"));
}

#[test]
fn test_empty_command_matches_only_empty_or_wildcard() {
    assert!(matches_pattern("", ""));
    assert!(matches_pattern("*", ""));
    assert!(matches_pattern("**", ""));
    assert!(!matches_pattern("push", ""));
    assert!(!matches_pattern(" ", ""));
}

#[test]
fn test_glob_matches_across_spaces() {
    assert!(matches_pattern("push --force*", "push --force origin main"));
    assert!(!matches_pattern("push *", "push"));
    assert!(matches_pattern("push*", "push"));
    assert!(matches_pattern("push *", "push origin"));
    assert!(matches_pattern("a*c", "a b c"));
    assert!(!matches_pattern("a*c", "a b d"));
}

#[test]
fn test_question_mark_is_not_a_wildcard() {
    assert!(matches_pattern("pr merge?", "pr merge?"));
    assert!(!matches_pattern("pr merge?", "pr merges"));
}

#[test]
fn test_decision_labels() {
    assert_eq!(Decision::Allow.label(), "ALLOW");
    assert_eq!(Decision::Confirm.label(), "CONFIRM");
    assert_eq!(Decision::Deny.label(), "DENY");
    assert_eq!(Decision::DefaultDeny.label(), "DEFAULT_DENY");
}

#[test]
fn test_join_args_single_spaces() {
    assert_eq!(gg::rules::join_args(&args("push origin main")), "push origin main");
    assert_eq!(gg::rules::join_args(&Vec::<String>::new()), "");
    assert_eq!(gg::rules::join_args(&["one".to_string()]), "one");
}

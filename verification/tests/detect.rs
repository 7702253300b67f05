use gg::config::{Config, Options, Priority, Rules, ToolConfig};
use gg::detect::{detect, detect_by_subcommand, parse_tool_flag, Tool};

fn empty_config() -> Config {
    Config::default()
}

fn config_with_rules() -> Config {
    Config {
        git: ToolConfig {
            rules: Rules {
                allow: vec!["status".to_string(), "log*".to_string()],
                confirm: vec!["push".to_string()],
                deny: vec!["push --force*".to_string()],
            },
        },
        gh: ToolConfig {
            rules: Rules {
                allow: vec!["pr list*".to_string(), "status".to_string()],
                confirm: vec![],
                deny: vec!["pr merge*".to_string()],
            },
        },
        options: Options {
            priority: Priority::Git,
            ..Options::default()
        },
    }
}

fn split(s: &str) -> Vec<String> {
    s.split_whitespace().map(String::from).collect()
}

#[test]
fn test_detect_git_by_rules() {
    let config = config_with_rules();
    assert_eq!(detect(&config, &split("push origin main")), Some(Tool::Git));
}

#[test]
fn test_detect_gh_by_rules() {
    let config = config_with_rules();
    assert_eq!(detect(&config, &split("pr list")), Some(Tool::Gh));
}

#[test]
fn test_detect_ambiguous_uses_priority() {
    let config = config_with_rules();
    assert_eq!(detect(&config, &split("status")), Some(Tool::Git));
}

#[test]
fn test_detect_ambiguous_gh_priority() {
    let mut config = config_with_rules();
    config.options.priority = Priority::Gh;
    assert_eq!(detect(&config, &split("status")), Some(Tool::Gh));
}

#[test]
fn test_detect_fallback_to_subcommand() {
    let config = empty_config();
    assert_eq!(detect(&config, &split("commit -m foo")), Some(Tool::Git));
    assert_eq!(detect(&config, &split("issue list")), Some(Tool::Gh));
}

#[test]
fn test_detect_unknown_returns_none() {
    let config = empty_config();
    assert_eq!(detect(&config, &split("foobar")), None);
}

#[test]
fn test_detect_rule_match_then_allow_scenario() {
    let config = Config {
        git: ToolConfig::default(),
        gh: ToolConfig {
            rules: Rules {
                allow: vec!["pr list*".to_string()],
                confirm: vec![],
                deny: vec![],
            },
        },
        options: Options::default(),
    };
    let args = vec!["pr".to_string(), "list".to_string()];
    let tool = detect(&config, &args);
    assert_eq!(tool, Some(Tool::Gh));
    assert_eq!(
        gg::rules::evaluate(&config.gh.rules, &args, true),
        gg::rules::Decision::Allow
    );
}

#[test]
fn test_detect_empty_args_returns_none() {
    let config = empty_config();
    assert_eq!(detect(&config, &Vec::<String>::new()), None);
}

#[test]
fn test_detect_by_subcommand_tables() {
    assert_eq!(detect_by_subcommand(&split("rebase -i")), Some(Tool::Git));
    assert_eq!(detect_by_subcommand(&split("repo delete foo")), Some(Tool::Gh));
    assert_eq!(detect_by_subcommand(&split("status")), None);
}

#[test]
fn test_parse_tool_flag_git() {
    let (tool, rest) = parse_tool_flag(&split("--git status"));
    assert_eq!(tool, Some(Tool::Git));
    assert_eq!(rest, vec!["status".to_string()]);
}

#[test]
fn test_parse_tool_flag_gh() {
    let (tool, rest) = parse_tool_flag(&split("--gh pr list"));
    assert_eq!(tool, Some(Tool::Gh));
    assert_eq!(rest, vec!["pr".to_string(), "list".to_string()]);
}

#[test]
fn test_parse_tool_flag_absent() {
    let (tool, rest) = parse_tool_flag(&split("push origin main"));
    assert_eq!(tool, None);
    assert_eq!(rest, split("push origin main"));
}

#[test]
fn test_tool_labels() {
    assert_eq!(Tool::Git.label(), "git");
    assert_eq!(Tool::Gh.label(), "gh");
}

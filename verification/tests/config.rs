use gg::config::{Config, Priority};

#[test]
fn test_default_config() {
    let config = Config::default();
    assert!(config.options.deny_by_default);
    assert!(config.options.log);
    assert_eq!(config.options.priority, Priority::Git);
    assert!(config.options.log_file.is_none());
    assert!(config.git.rules.allow.is_empty());
    assert!(config.gh.rules.deny.is_empty());
}

#[test]
fn test_priority_display() {
    assert_eq!(Priority::Git.label(), "git");
    assert_eq!(Priority::Gh.label(), "gh");
}

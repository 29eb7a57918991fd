use arbor::config::{ArborConfig, IgnoreConfig, glob_match};
use arbor::paths;

#[test]
fn test_default_config() {
    let config = ArborConfig::default();
    assert_eq!(config.analysis.max_depth, 50);
    assert!(!config.analysis.include_stdlib);
    assert_eq!(config.analysis.timeout_seconds, 300);
    assert_eq!(config.database.path, paths::database_path());
}

#[test]
fn test_glob_match() {
    assert!(glob_match("*._private_*", "module._private_func"));
    assert!(glob_match("*._private_*", "pkg.module._private_helper"));
    assert!(!glob_match("*._private_*", "module.public_func"));

    assert!(glob_match("test_*", "test_module"));
    assert!(!glob_match("test_*", "module_test"));

    assert!(glob_match("*_test", "module_test"));
    assert!(!glob_match("*_test", "test_module"));

    assert!(glob_match("foo", "foo"));
    assert!(!glob_match("foo", "bar"));
}

#[test]
fn test_should_ignore() {
    let mut config = ArborConfig::default();
    config.ignore = IgnoreConfig {
        packages: vec!["tests".to_string(), "__pycache__".to_string()],
        functions: vec!["*._private_*".to_string(), "test_*".to_string()],
        patterns: Vec::new(),
    };

    assert!(config.should_ignore_package("tests"));
    assert!(config.should_ignore_package("__pycache__"));
    assert!(!config.should_ignore_package("mypackage"));

    assert!(config.should_ignore_function("module._private_func"));
    assert!(config.should_ignore_function("test_something"));
    assert!(!config.should_ignore_function("public_func"));
}

#[test]
fn test_default_toml_parses() {
    let toml_text = ArborConfig::default_toml();
    let parsed: Result<toml::Value, _> = toml::from_str(&toml_text);
    assert!(parsed.is_ok());
    assert!(toml_text.contains("[database]"));
    assert!(toml_text.contains("max_depth = 50"));
}

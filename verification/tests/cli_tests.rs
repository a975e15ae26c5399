use scaffold::cli::Cli;

#[test]
fn test_cli_parses_project_name() {
    let cli = Cli::try_parse_from(&["scaffold", "my-project"]).unwrap();
    assert_eq!(cli.project, "my-project");
    assert!(cli.author.is_none());
    assert!(cli.directory.is_none());
    assert!(cli.config.is_none());
    assert!(!cli.no_git);
    assert!(!cli.no_sample_config);
    assert!(!cli.skip_verify);
    assert!(!cli.no_deps);
}

#[test]
fn test_cli_parses_all_options() {
    let cli = Cli::try_parse_from(&[
        "scaffold",
        "test-project",
        "--author",
        "Test Author <test@example.com>",
        "--directory",
        "/tmp/test",
        "--config",
        "config.yml",
        "--no-git",
        "--no-sample-config",
        "--no-verify",
        "--no-deps",
    ])
    .unwrap();

    assert_eq!(cli.project, "test-project");
    assert_eq!(cli.author, Some("Test Author <test@example.com>".to_string()));
    assert_eq!(cli.directory, Some("/tmp/test".to_string()));
    assert_eq!(cli.config, Some("config.yml".to_string()));
    assert!(cli.no_git);
    assert!(cli.no_sample_config);
    assert!(cli.skip_verify);
    assert!(cli.no_deps);
}

#[test]
fn test_cli_parses_short_flags() {
    let cli = Cli::try_parse_from(&[
        "scaffold",
        "test-project",
        "-a",
        "Short Author",
        "-d",
        "/tmp/short",
        "-c",
        "short.yml",
    ])
    .unwrap();

    assert_eq!(cli.project, "test-project");
    assert_eq!(cli.author, Some("Short Author".to_string()));
    assert_eq!(cli.directory, Some("/tmp/short".to_string()));
    assert_eq!(cli.config, Some("short.yml".to_string()));
}

#[test]
fn test_cli_requires_project_name() {
    let result = Cli::try_parse_from(&["scaffold"]);
    assert!(result.is_err());
}

#[test]
fn test_cli_accepts_complex_project_names() {
    let valid_names = [
        "simple",
        "with-dashes",
        "with_underscores",
        "with123numbers",
        "a",
        "very-long-project-name-with-many-parts",
    ];

    for name in valid_names.iter() {
        let cli = Cli::try_parse_from(&["scaffold", name]).unwrap();
        assert_eq!(cli.project, *name);
    }
}

#[test]
fn test_cli_help_contains_expected_text() {
    let help = Cli::command().render_help().to_string();

    assert!(help.contains("A Rust CLI project scaffolding tool"));
    assert!(help.contains("Name of the project to create"));
    assert!(help.contains("Author name for Cargo.toml"));
    assert!(help.contains("Target directory"));
    assert!(help.contains("Path to config file"));
    assert!(help.contains("Don't initialize git repository"));
    assert!(help.contains("Don't create sample config file"));
    assert!(help.contains("Don't verify that the generated project builds"));
    assert!(help.contains("Don't add dependencies with cargo add"));
    assert!(help.contains("Logs are written to"));
    assert!(help.contains("Proper error handling with eyre"));
    assert!(help.contains("Structured logging with env_logger"));
    assert!(help.contains("Configuration management with serde_yaml"));
    assert!(help.contains("Modern CLI parsing with clap"));
    assert!(help.contains("Git version integration"));
}

#[test]
fn test_cli_version_uses_git_describe() {
    let cmd = Cli::command();
    let version = cmd.get_version().unwrap_or("unknown");
    assert!(!version.is_empty());
}

#[test]
fn test_cli_boolean_flags_default_false() {
    let cli = Cli::try_parse_from(&["scaffold", "test"]).unwrap();

    assert!(!cli.no_git);
    assert!(!cli.no_sample_config);
    assert!(!cli.skip_verify);
    assert!(!cli.no_deps);
}

#[test]
fn test_cli_optional_fields_default_none() {
    let cli = Cli::try_parse_from(&["scaffold", "test"]).unwrap();

    assert!(cli.author.is_none());
    assert!(cli.directory.is_none());
    assert!(cli.config.is_none());
}

#[test]
fn test_help_command() {
    let error = Cli::try_parse_from(&["scaffold", "--help"]).unwrap_err();
    assert_eq!(error.exit_code, 0);
    assert!(error.message.contains("A Rust CLI project scaffolding tool"));
    assert!(error.message.contains("Usage: scaffold"));
    assert!(error.message.contains("PROJECT"));
    assert!(error.message.contains("--author"));
    assert!(error.message.contains("--directory"));
    assert!(error.message.contains("--config"));
    assert!(error.message.contains("--no-git"));
    assert!(error.message.contains("--no-sample-config"));
    assert!(error.message.contains("Logs are written to"));
}

#[test]
fn test_version_command() {
    let error = Cli::try_parse_from(&["scaffold", "--version"]).unwrap_err();
    assert_eq!(error.exit_code, 0);
    assert!(error.message.contains("scaffold"));
}

#[test]
fn test_missing_project_name() {
    let error = Cli::try_parse_from(&[]).unwrap_err();
    assert_ne!(error.exit_code, 0);
    assert!(error.message.contains("required"));
}

#[test]
fn short_help_leaves_with_status_zero() {
    let error = Cli::try_parse_from(&["scaffold", "-h"]).unwrap_err();
    assert_eq!(error.exit_code, 0);
    assert!(error.message.contains("Usage: scaffold"));
}

#[test]
fn unknown_option_is_refused_with_usage_status() {
    let error = Cli::try_parse_from(&["scaffold", "demo", "--frobnicate"]).unwrap_err();
    assert_eq!(error.exit_code, 2);
    assert!(error.message.contains("--frobnicate"));
}

#[test]
fn second_positional_is_refused() {
    let result = Cli::try_parse_from(&["scaffold", "one", "two"]);
    assert!(result.is_err());
}

#[test]
fn option_without_value_is_refused() {
    let result = Cli::try_parse_from(&["scaffold", "demo", "--author"]);
    assert!(result.is_err());
}

#[test]
fn options_may_precede_the_project_name() {
    let cli = Cli::try_parse_from(&["scaffold", "--no-deps", "-a", "Someone", "demo"]).unwrap();
    assert_eq!(cli.project, "demo");
    assert_eq!(cli.author, Some("Someone".to_string()));
    assert!(cli.no_deps);
    assert!(!cli.no_git);
}

#[test]
fn option_value_may_follow_an_equals_sign() {
    let cli = Cli::try_parse_from(&["scaffold", "demo", "--directory=/srv/demo"]).unwrap();
    assert_eq!(cli.directory, Some("/srv/demo".to_string()));
}

#[test]
fn each_switch_sets_its_own_field() {
    let cli = Cli::try_parse_from(&["scaffold", "demo", "--no-git"]).unwrap();
    assert!(cli.no_git && !cli.no_sample_config && !cli.skip_verify && !cli.no_deps);
    let cli = Cli::try_parse_from(&["scaffold", "demo", "--no-sample-config"]).unwrap();
    assert!(!cli.no_git && cli.no_sample_config && !cli.skip_verify && !cli.no_deps);
    let cli = Cli::try_parse_from(&["scaffold", "demo", "--no-verify"]).unwrap();
    assert!(!cli.no_git && !cli.no_sample_config && cli.skip_verify && !cli.no_deps);
    let cli = Cli::try_parse_from(&["scaffold", "demo", "--no-deps"]).unwrap();
    assert!(!cli.no_git && !cli.no_sample_config && !cli.skip_verify && cli.no_deps);
}

#[test]
fn version_is_the_crate_version() {
    let cmd = Cli::command();
    assert_eq!(cmd.get_version(), Some("0.1.0"));
    assert_eq!(cmd.get_name(), "scaffold");
}

use scaffold::config::{CliConfig, Config, Dependency, TemplateConfig};
use scaffold::loading::{ConfigSource, LoadError, LoadStep, Lookup};
use scaffold::sample::{SampleConfig, SampleValue};

#[test]
fn config_test_config_default_values() {
    let config = Config::default();

    assert_eq!(config.default_author, "Your Name <your.email@example.com>");
    assert_eq!(config.default_license, "MIT");
    assert!(config.create_git_repo);
    assert!(config.create_sample_config);
    assert!(!config.debug);
}

#[test]
fn test_template_config_default_values() {
    let template = TemplateConfig::default();

    assert!(template.create_build_rs);
    assert!(template.create_cli_module);
    assert!(template.create_config_module);
    assert!(!template.dependencies.is_empty());
    assert!(!template.sample_config.is_empty());
}

#[test]
fn config_test_template_config_default_dependencies() {
    let template = TemplateConfig::default();

    let dep_names: Vec<&str> = template.dependencies.iter().map(|d| d.name.as_str()).collect();
    assert!(dep_names.contains(&"clap"));
    assert!(dep_names.contains(&"eyre"));
    assert!(dep_names.contains(&"log"));
    assert!(dep_names.contains(&"env_logger"));
    assert!(dep_names.contains(&"serde"));
    assert!(dep_names.contains(&"serde_yaml"));
    assert!(dep_names.contains(&"dirs"));
    assert!(dep_names.contains(&"colored"));
}

#[test]
fn test_template_config_clap_has_derive_feature() {
    let template = TemplateConfig::default();

    let clap_dep = template.dependencies.iter().find(|d| d.name == "clap").unwrap();
    assert!(clap_dep.features.contains(&"derive".to_string()));
}

#[test]
fn test_template_config_serde_has_derive_feature() {
    let template = TemplateConfig::default();

    let serde_dep = template.dependencies.iter().find(|d| d.name == "serde").unwrap();
    assert!(serde_dep.features.contains(&"derive".to_string()));
}

#[test]
fn config_test_template_config_default_sample_config() {
    let template = TemplateConfig::default();

    assert!(template.sample_config.contains_key("name"));
    assert!(template.sample_config.contains_key("age"));
    assert!(template.sample_config.contains_key("debug"));

    if let Some(SampleValue::Text(name)) = template.sample_config.get("name") {
        assert_eq!(name, "John Doe");
    } else {
        panic!("Expected name to be a string");
    }

    if let Some(SampleValue::Integer(age)) = template.sample_config.get("age") {
        assert_eq!(*age, 30);
    } else {
        panic!("Expected age to be a number");
    }

    if let Some(SampleValue::Bool(debug)) = template.sample_config.get("debug") {
        assert!(!debug);
    } else {
        panic!("Expected debug to be a boolean");
    }
}

#[test]
fn test_cli_config_default_values() {
    let cli_config = CliConfig::default();

    assert!(cli_config.after_help.contains("{{PROJECT}}"));
    assert!(cli_config.after_help.contains("logs"));
}

#[test]
fn test_config_load_with_no_file_returns_default() {
    let config = Config::default();

    assert_eq!(config.default_author, "Your Name <your.email@example.com>");
    assert_eq!(config.default_license, "MIT");
    assert!(config.create_git_repo);
}

#[test]
fn unit_tests_test_config_default_values() {
    let config = Config::default();

    assert_eq!(config.default_author, "Your Name <your.email@example.com>");
    assert_eq!(config.default_license, "MIT");
    assert!(config.create_git_repo);
    assert!(config.create_sample_config);
    assert!(!config.debug);

    assert!(config.template.create_build_rs);
    assert!(config.template.create_cli_module);
    assert!(config.template.create_config_module);
    assert!(!config.template.dependencies.is_empty());
    assert!(!config.template.sample_config.is_empty());
}

#[test]
fn unit_tests_test_template_config_default_dependencies() {
    let template = TemplateConfig::default();

    let expected_deps = ["clap", "eyre", "log", "env_logger", "serde", "serde_yaml", "dirs", "colored"];

    for expected_dep in expected_deps.iter() {
        assert!(
            template.dependencies.iter().any(|dep| dep.name == *expected_dep),
            "Missing expected dependency: {}",
            expected_dep
        );
    }

    let clap_dep = template.dependencies.iter().find(|dep| dep.name == "clap").unwrap();
    assert!(clap_dep.features.contains(&"derive".to_string()));

    let serde_dep = template.dependencies.iter().find(|dep| dep.name == "serde").unwrap();
    assert!(serde_dep.features.contains(&"derive".to_string()));
}

#[test]
fn unit_tests_test_template_config_default_sample_config() {
    let template = TemplateConfig::default();

    assert!(template.sample_config.contains_key("name"));
    assert!(template.sample_config.contains_key("age"));
    assert!(template.sample_config.contains_key("debug"));

    match template.sample_config.get("name").unwrap() {
        SampleValue::Text(s) => assert_eq!(s, "John Doe"),
        _ => panic!("Expected string value for name"),
    }

    match template.sample_config.get("age").unwrap() {
        SampleValue::Integer(n) => assert_eq!(*n, 30),
        _ => panic!("Expected number value for age"),
    }

    match template.sample_config.get("debug").unwrap() {
        SampleValue::Bool(b) => assert!(!b),
        _ => panic!("Expected boolean value for debug"),
    }
}

#[test]
fn default_dependencies_come_in_their_order() {
    let template = TemplateConfig::default();
    let expected = vec![
        Dependency { name: "clap".to_string(), features: vec!["derive".to_string()] },
        Dependency { name: "eyre".to_string(), features: vec![] },
        Dependency { name: "log".to_string(), features: vec![] },
        Dependency { name: "env_logger".to_string(), features: vec![] },
        Dependency { name: "serde".to_string(), features: vec!["derive".to_string()] },
        Dependency { name: "serde_yaml".to_string(), features: vec![] },
        Dependency { name: "dirs".to_string(), features: vec![] },
        Dependency { name: "colored".to_string(), features: vec![] },
    ];
    assert_eq!(template.dependencies, expected);
}

#[test]
fn default_help_text_is_exact() {
    assert_eq!(
        CliConfig::default().after_help,
        "Logs are written to: ~/.local/share/{{PROJECT}}/logs/{{PROJECT}}.log"
    );
    assert_eq!(
        Config::default().template.cli.after_help,
        "Logs are written to: ~/.local/share/{{PROJECT}}/logs/{{PROJECT}}.log"
    );
}

#[test]
fn default_sample_config_has_three_entries_in_order() {
    let sample = TemplateConfig::default().sample_config;
    assert_eq!(sample.len(), 3);
    let keys: Vec<&str> = sample.entries().iter().map(|e| e.key.as_str()).collect();
    assert_eq!(keys, vec!["name", "age", "debug"]);
}

#[test]
fn dependency_builders_set_name_and_features() {
    assert_eq!(
        Dependency::plain("eyre"),
        Dependency { name: "eyre".to_string(), features: vec![] }
    );
    assert_eq!(
        Dependency::with_feature("clap", "derive"),
        Dependency { name: "clap".to_string(), features: vec!["derive".to_string()] }
    );
}

#[test]
fn sample_config_insert_get_and_replace() {
    let mut sample = SampleConfig::new();
    assert!(sample.is_empty());
    assert_eq!(sample.len(), 0);
    assert_eq!(sample.get("a"), None);

    sample.insert("a".to_string(), SampleValue::Integer(1));
    sample.insert("b".to_string(), SampleValue::Text("two".to_string()));
    sample.insert("c".to_string(), SampleValue::Null);
    sample.insert("a".to_string(), SampleValue::Bool(true));
    sample.insert("d".to_string(), SampleValue::Yaml("[1, 2]".to_string()));

    assert!(!sample.is_empty());
    assert_eq!(sample.len(), 4);
    assert_eq!(sample.get("a"), Some(&SampleValue::Bool(true)));
    assert_eq!(sample.get("b"), Some(&SampleValue::Text("two".to_string())));
    assert_eq!(sample.get("c"), Some(&SampleValue::Null));
    assert_eq!(sample.get("d"), Some(&SampleValue::Yaml("[1, 2]".to_string())));
    assert_eq!(sample.get("e"), None);
    assert!(sample.contains_key("c"));
    assert!(!sample.contains_key("C"));
    let keys: Vec<&str> = sample.entries().iter().map(|e| e.key.as_str()).collect();
    assert_eq!(keys, vec!["a", "b", "c", "d"]);
}

fn custom_config() -> Config {
    let mut config = Config::default();
    config.default_author = "Test Author <test@example.com>".to_string();
    config.default_license = "Apache-2.0".to_string();
    config
}

#[test]
fn named_file_is_consulted_first() {
    let path = "test.yml".to_string();
    assert_eq!(
        Config::load(Some(&path)),
        ConfigSource::Explicit { path: "test.yml".to_string() }
    );
    assert_eq!(Config::load(Some(&path)).file(), vec!["test.yml".to_string()]);
}

#[test]
fn without_named_file_the_user_directory_is_consulted_first() {
    assert_eq!(Config::load(None), ConfigSource::UserDirectory);
    assert_eq!(
        ConfigSource::UserDirectory.file(),
        vec!["scaffold".to_string(), "scaffold.yml".to_string()]
    );
    assert_eq!(ConfigSource::WorkingDirectory.file(), vec!["scaffold.yml".to_string()]);
}

#[test]
fn named_file_that_loads_gives_the_settings() {
    let source = ConfigSource::Explicit { path: "test.yml".to_string() };
    match Config::load_next(source, Lookup::Parsed(custom_config())) {
        LoadStep::Loaded(config) => {
            assert_eq!(config.default_author, "Test Author <test@example.com>");
            assert_eq!(config.default_license, "Apache-2.0");
        }
        other => panic!("expected settings, got {:?}", other),
    }
}

#[test]
fn named_file_that_is_missing_fails() {
    let source = ConfigSource::Explicit { path: "/this/file/does/not/exist.yml".to_string() };
    match Config::load_next(source, Lookup::Missing) {
        LoadStep::Failed(error) => {
            assert_eq!(
                error,
                LoadError {
                    path: "/this/file/does/not/exist.yml".to_string(),
                    cause: "Failed to read config file".to_string(),
                }
            );
            assert_eq!(error.message(), "Failed to load config from /this/file/does/not/exist.yml");
        }
        other => panic!("expected a failure, got {:?}", other),
    }
}

#[test]
fn named_file_that_does_not_parse_fails() {
    let source = ConfigSource::Explicit { path: "invalid.yml".to_string() };
    let found = Lookup::Unreadable { message: "Failed to parse config file".to_string() };
    match Config::load_next(source, found) {
        LoadStep::Failed(error) => {
            assert_eq!(error.path, "invalid.yml");
            assert_eq!(error.cause, "Failed to parse config file");
        }
        other => panic!("expected a failure, got {:?}", other),
    }
}

#[test]
fn user_directory_file_that_does_not_serve_is_passed_over() {
    for found in [Lookup::Missing, Lookup::Unreadable { message: "bad".to_string() }] {
        match Config::load_next(ConfigSource::UserDirectory, found) {
            LoadStep::Consult(ConfigSource::WorkingDirectory) => {}
            other => panic!("expected the working directory next, got {:?}", other),
        }
    }
}

#[test]
fn user_directory_file_that_loads_ends_the_search() {
    match Config::load_next(ConfigSource::UserDirectory, Lookup::Parsed(custom_config())) {
        LoadStep::Loaded(config) => assert_eq!(config.default_license, "Apache-2.0"),
        other => panic!("expected settings, got {:?}", other),
    }
}

#[test]
fn working_directory_file_that_does_not_serve_gives_the_defaults() {
    for found in [Lookup::Missing, Lookup::Unreadable { message: "bad".to_string() }] {
        match Config::load_next(ConfigSource::WorkingDirectory, found) {
            LoadStep::Loaded(config) => {
                assert_eq!(config.default_author, "Your Name <your.email@example.com>");
                assert_eq!(config.template.dependencies.len(), 8);
            }
            other => panic!("expected the built-in settings, got {:?}", other),
        }
    }
}

#[test]
fn working_directory_file_that_loads_gives_its_settings() {
    match Config::load_next(ConfigSource::WorkingDirectory, Lookup::Parsed(custom_config())) {
        LoadStep::Loaded(config) => {
            assert_eq!(config.default_author, "Test Author <test@example.com>")
        }
        other => panic!("expected settings, got {:?}", other),
    }
}

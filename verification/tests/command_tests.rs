use scaffold::cli::Cli;
use scaffold::command::Invocation;
use scaffold::config::{Config, Dependency};
use scaffold::request::ProjectRequest;
use scaffold::text::{eq_ignore_ascii_case, folded_chars, join, to_ascii_lower};

fn strings(parts: &[&str]) -> Vec<String> {
    parts.iter().map(|p| p.to_string()).collect()
}

#[test]
fn repository_is_initialized_with_git_init() {
    assert_eq!(
        Invocation::init_repository("/srv/demo"),
        Invocation {
            program: "git".to_string(),
            args: strings(&["init"]),
            working_directory: "/srv/demo".to_string(),
        }
    );
}

#[test]
fn dependency_without_features_is_added_by_name() {
    let dependency = Dependency { name: "eyre".to_string(), features: vec![] };
    assert_eq!(
        Invocation::add_dependency(&dependency, "demo"),
        Invocation {
            program: "cargo".to_string(),
            args: strings(&["add", "eyre"]),
            working_directory: "demo".to_string(),
        }
    );
}

#[test]
fn features_are_joined_with_commas() {
    let dependency = Dependency {
        name: "custom-dep".to_string(),
        features: strings(&["feature1", "feature2"]),
    };
    assert_eq!(
        Invocation::add_dependency(&dependency, "demo").args,
        strings(&["add", "custom-dep", "--features=feature1,feature2"])
    );
    let dependency = Dependency { name: "clap".to_string(), features: strings(&["derive"]) };
    assert_eq!(
        Invocation::add_dependency(&dependency, "demo").args,
        strings(&["add", "clap", "--features=derive"])
    );
}

#[test]
fn project_is_built_with_cargo_build() {
    assert_eq!(
        Invocation::build("demo"),
        Invocation {
            program: "cargo".to_string(),
            args: strings(&["build"]),
            working_directory: "demo".to_string(),
        }
    );
}

#[test]
fn join_puts_the_separator_between_neighbours() {
    assert_eq!(join(&strings(&[]), ","), "");
    assert_eq!(join(&strings(&["a"]), ","), "a");
    assert_eq!(join(&strings(&["a", "b", "c"]), ","), "a,b,c");
    assert_eq!(join(&strings(&["", ""]), ", "), ", ");
}

#[test]
fn only_ascii_capitals_are_folded() {
    assert_eq!(to_ascii_lower('A'), 'a');
    assert_eq!(to_ascii_lower('Z'), 'z');
    assert_eq!(to_ascii_lower('m'), 'm');
    assert_eq!(to_ascii_lower('@'), '@');
    assert_eq!(to_ascii_lower('['), '[');
    assert_eq!(to_ascii_lower('\u{c9}'), '\u{c9}');
    assert_eq!(folded_chars("README.md"), "readme.md".chars().collect::<Vec<char>>());
}

#[test]
fn comparison_ignores_ascii_case_only() {
    assert!(eq_ignore_ascii_case("README.md", "readme.MD"));
    assert!(eq_ignore_ascii_case("", ""));
    assert!(!eq_ignore_ascii_case("README", "README.md"));
    assert!(!eq_ignore_ascii_case("\u{c9}", "\u{e9}"));
    assert!(!eq_ignore_ascii_case("a", "b"));
}

fn cli(project: &str) -> Cli {
    Cli {
        project: project.to_string(),
        author: None,
        directory: None,
        config: None,
        no_git: false,
        no_sample_config: false,
        skip_verify: false,
        no_deps: false,
    }
}

#[test]
fn request_takes_its_defaults_from_the_configuration() {
    let request = ProjectRequest::resolve(&cli("demo-app"), &Config::default());
    assert_eq!(
        request,
        ProjectRequest {
            name: "demo-app".to_string(),
            target_directory: "demo-app".to_string(),
            author: "Your Name <your.email@example.com>".to_string(),
            skip_version_control: false,
            skip_dependencies: false,
            skip_build_verification: false,
        }
    );
}

#[test]
fn request_prefers_what_the_command_line_says() {
    let mut options = cli("demo-app");
    options.author = Some("Someone <s@example.com>".to_string());
    options.directory = Some("/srv/elsewhere".to_string());
    options.no_git = true;
    options.no_deps = true;
    options.skip_verify = true;
    let request = ProjectRequest::resolve(&options, &Config::default());
    assert_eq!(
        request,
        ProjectRequest {
            name: "demo-app".to_string(),
            target_directory: "/srv/elsewhere".to_string(),
            author: "Someone <s@example.com>".to_string(),
            skip_version_control: true,
            skip_dependencies: true,
            skip_build_verification: true,
        }
    );
}

#[test]
fn each_skip_flag_maps_to_its_own_stage() {
    let mut options = cli("demo");
    options.no_git = true;
    let request = ProjectRequest::resolve(&options, &Config::default());
    assert!(request.skip_version_control && !request.skip_dependencies && !request.skip_build_verification);

    let mut options = cli("demo");
    options.no_deps = true;
    let request = ProjectRequest::resolve(&options, &Config::default());
    assert!(!request.skip_version_control && request.skip_dependencies && !request.skip_build_verification);

    let mut options = cli("demo");
    options.skip_verify = true;
    let request = ProjectRequest::resolve(&options, &Config::default());
    assert!(!request.skip_version_control && !request.skip_dependencies && request.skip_build_verification);
}

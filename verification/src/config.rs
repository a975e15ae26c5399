//! Settings that shape a generated project, and their built-in values.

use crate::sample::{SampleConfig, SampleValue, SampleValueView};
use crate::text::texts;
use vstd::prelude::*;

verus! {

/// A crate to register in the generated manifest. The features keep the order in which
/// they were written, so that the manifest comes out the same on every run.
#[derive(Debug, Clone, PartialEq, Eq)]
pub struct Dependency {
    pub name: String,
    pub features: Vec<String>,
}

/// A dependency as mathematical values.
pub struct DependencyView {
    pub name: Seq<char>,
    pub features: Seq<Seq<char>>,
}

impl View for Dependency {
    type V = DependencyView;

    open spec fn view(&self) -> DependencyView {
        DependencyView { name: self.name@, features: texts(self.features@) }
    }
}

/// The dependencies held by a vector, each as mathematical values.
pub open spec fn dependency_views(v: Seq<Dependency>) -> Seq<DependencyView> {
    Seq::new(v.len(), |i: int| v[i]@)
}

/// Help-text settings for the generated command line.
#[derive(Debug, Clone, PartialEq, Eq)]
pub struct CliConfig {
    pub after_help: String,
}

/// Help-text settings as mathematical values.
pub struct CliConfigView {
    pub after_help: Seq<char>,
}

impl View for CliConfig {
    type V = CliConfigView;

    open spec fn view(&self) -> CliConfigView {
        CliConfigView { after_help: self.after_help@ }
    }
}

/// What goes into a generated project.
#[derive(Debug)]
pub struct TemplateConfig {
    pub create_build_rs: bool,
    pub create_cli_module: bool,
    pub create_config_module: bool,
    pub dependencies: Vec<Dependency>,
    pub sample_config: SampleConfig,
    pub cli: CliConfig,
}

/// Template settings as mathematical values.
pub struct TemplateConfigView {
    pub create_build_rs: bool,
    pub create_cli_module: bool,
    pub create_config_module: bool,
    pub dependencies: Seq<DependencyView>,
    pub sample_config: Map<Seq<char>, SampleValueView>,
    pub sample_keys: Seq<Seq<char>>,
    pub cli: CliConfigView,
}

impl View for TemplateConfig {
    type V = TemplateConfigView;

    open spec fn view(&self) -> TemplateConfigView {
        TemplateConfigView {
            create_build_rs: self.create_build_rs,
            create_cli_module: self.create_cli_module,
            create_config_module: self.create_config_module,
            dependencies: dependency_views(self.dependencies@),
            sample_config: self.sample_config@,
            sample_keys: self.sample_config.keys(),
            cli: self.cli@,
        }
    }
}

/// The settings of one run.
#[derive(Debug)]
pub struct Config {
    pub default_author: String,
    pub default_license: String,
    pub create_git_repo: bool,
    pub create_sample_config: bool,
    pub debug: bool,
    pub template: TemplateConfig,
}

/// The settings of one run as mathematical values.
pub struct ConfigView {
    pub default_author: Seq<char>,
    pub default_license: Seq<char>,
    pub create_git_repo: bool,
    pub create_sample_config: bool,
    pub debug: bool,
    pub template: TemplateConfigView,
}

impl View for Config {
    type V = ConfigView;

    open spec fn view(&self) -> ConfigView {
        ConfigView {
            default_author: self.default_author@,
            default_license: self.default_license@,
            create_git_repo: self.create_git_repo,
            create_sample_config: self.create_sample_config,
            debug: self.debug,
            template: self.template@,
        }
    }
}

/// The help text that a generated command line ends with, unless a configuration file
/// says otherwise.
pub open spec fn default_cli_config() -> CliConfigView {
    CliConfigView {
        after_help: "Logs are written to: ~/.local/share/{{PROJECT}}/logs/{{PROJECT}}.log"@,
    }
}

/// The crates that a generated project depends on, unless a configuration file says
/// otherwise.
pub open spec fn default_dependencies() -> Seq<DependencyView> {
    seq![
        DependencyView { name: "clap"@, features: seq!["derive"@] },
        DependencyView { name: "eyre"@, features: seq![] },
        DependencyView { name: "log"@, features: seq![] },
        DependencyView { name: "env_logger"@, features: seq![] },
        DependencyView { name: "serde"@, features: seq!["derive"@] },
        DependencyView { name: "serde_yaml"@, features: seq![] },
        DependencyView { name: "dirs"@, features: seq![] },
        DependencyView { name: "colored"@, features: seq![] },
    ]
}

/// The sample values of a generated project, unless a configuration file says otherwise.
pub open spec fn default_sample_config() -> Map<Seq<char>, SampleValueView> {
    map![
        "name"@ => SampleValueView::Text("John Doe"@),
        "age"@ => SampleValueView::Integer(30),
        "debug"@ => SampleValueView::Bool(false),
    ]
}

/// The template settings in force unless a configuration file says otherwise.
pub open spec fn default_template_config() -> TemplateConfigView {
    TemplateConfigView {
        create_build_rs: true,
        create_cli_module: true,
        create_config_module: true,
        dependencies: default_dependencies(),
        sample_config: default_sample_config(),
        sample_keys: seq!["name"@, "age"@, "debug"@],
        cli: default_cli_config(),
    }
}

/// The settings in force unless a configuration file says otherwise.
pub open spec fn default_config() -> ConfigView {
    ConfigView {
        default_author: "Your Name <your.email@example.com>"@,
        default_license: "MIT"@,
        create_git_repo: true,
        create_sample_config: true,
        debug: false,
        template: default_template_config(),
    }
}

impl Dependency {
    /// A dependency on `name` with no features.
    pub fn plain(name: &str) -> (dependency: Dependency)
        ensures
            dependency@ == (DependencyView { name: name@, features: seq![] }),
    {
        let dependency = Dependency { name: name.to_owned(), features: Vec::new() };
        assert(dependency@.features =~= seq![]);
        dependency
    }

    /// A dependency on `name` with the one feature `feature`.
    pub fn with_feature(name: &str, feature: &str) -> (dependency: Dependency)
        ensures
            dependency@ == (DependencyView { name: name@, features: seq![feature@] }),
    {
        let mut features = Vec::new();
        features.push(feature.to_owned());
        let dependency = Dependency { name: name.to_owned(), features };
        assert(dependency@.features =~= seq![feature@]);
        dependency
    }
}

impl Default for CliConfig {
    fn default() -> (config: CliConfig)
        ensures
            config@ == default_cli_config(),
    {
        CliConfig {
            after_help: "Logs are written to: ~/.local/share/{{PROJECT}}/logs/{{PROJECT}}.log".to_owned(),
        }
    }
}

impl Default for TemplateConfig {
    fn default() -> (config: TemplateConfig)
        ensures
            config@ == default_template_config(),
    {
        proof {
            reveal_strlit("name");
            reveal_strlit("age");
            reveal_strlit("debug");
        }
        let mut sample_config = SampleConfig::new();
        sample_config.insert("name".to_owned(), SampleValue::Text("John Doe".to_owned()));
        assert(!sample_config@.contains_key("age"@)) by {
            assert("name"@.len() != "age"@.len());
        }
        sample_config.insert("age".to_owned(), SampleValue::Integer(30));
        assert(!sample_config@.contains_key("debug"@)) by {
            assert("name"@.len() != "debug"@.len());
            assert("age"@.len() != "debug"@.len());
        }
        sample_config.insert("debug".to_owned(), SampleValue::Bool(false));

        let mut dependencies = Vec::new();
        dependencies.push(Dependency::with_feature("clap", "derive"));
        dependencies.push(Dependency::plain("eyre"));
        dependencies.push(Dependency::plain("log"));
        dependencies.push(Dependency::plain("env_logger"));
        dependencies.push(Dependency::with_feature("serde", "derive"));
        dependencies.push(Dependency::plain("serde_yaml"));
        dependencies.push(Dependency::plain("dirs"));
        dependencies.push(Dependency::plain("colored"));

        let config = TemplateConfig {
            create_build_rs: true,
            create_cli_module: true,
            create_config_module: true,
            dependencies,
            sample_config,
            cli: CliConfig::default(),
        };
        proof {
            assert(config@.dependencies =~= default_dependencies());
            assert(config@.sample_config =~= default_sample_config());
            assert(config@.sample_keys =~= seq!["name"@, "age"@, "debug"@]);
        }
        config
    }
}

impl Default for Config {
    fn default() -> (config: Config)
        ensures
            config@ == default_config(),
    {
        Config {
            default_author: "Your Name <your.email@example.com>".to_owned(),
            default_license: "MIT".to_owned(),
            create_git_repo: true,
            create_sample_config: true,
            debug: false,
            template: TemplateConfig::default(),
        }
    }
}

} // verus!

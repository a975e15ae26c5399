//! Where the settings of a run come from.
//!
//! A configuration file named on the command line must load. Without one, the file in the
//! user's configuration directory is tried, then the one in the working directory, and a
//! file that is missing or does not load is passed over; when neither serves, the built-in
//! settings are used. Reading and parsing are the caller's part: the search says which
//! file to consult next, and takes what was found there.

use crate::config::{default_config, Config, ConfigView};
use crate::text::texts;
use vstd::prelude::*;
use vstd::string::StringExecFns;

verus! {

/// A place where a configuration file is looked for.
#[derive(Debug, Clone, PartialEq, Eq)]
pub enum ConfigSource {
    /// The file named on the command line.
    Explicit { path: String },
    /// `scaffold/scaffold.yml` below the user's configuration directory.
    UserDirectory,
    /// `scaffold.yml` in the working directory.
    WorkingDirectory,
}

/// A source as mathematical values.
pub enum ConfigSourceView {
    Explicit { path: Seq<char> },
    UserDirectory,
    WorkingDirectory,
}

impl View for ConfigSource {
    type V = ConfigSourceView;

    open spec fn view(&self) -> ConfigSourceView {
        match self {
            ConfigSource::Explicit { path } => ConfigSourceView::Explicit { path: path@ },
            ConfigSource::UserDirectory => ConfigSourceView::UserDirectory,
            ConfigSource::WorkingDirectory => ConfigSourceView::WorkingDirectory,
        }
    }
}

/// What the caller found at a source.
#[derive(Debug)]
pub enum Lookup {
    /// There is no such file, or no such directory to look in.
    Missing,
    /// The file is there but could not be read or parsed.
    Unreadable { message: String },
    /// The settings that the file holds, with the built-in value for each one it leaves out.
    Parsed(Config),
}

/// A lookup as mathematical values.
pub enum LookupView {
    Missing,
    Unreadable { message: Seq<char> },
    Parsed(ConfigView),
}

impl View for Lookup {
    type V = LookupView;

    open spec fn view(&self) -> LookupView {
        match self {
            Lookup::Missing => LookupView::Missing,
            Lookup::Unreadable { message } => LookupView::Unreadable { message: message@ },
            Lookup::Parsed(config) => LookupView::Parsed(config@),
        }
    }
}

/// The configuration file named on the command line did not load.
#[derive(Debug, Clone, PartialEq, Eq)]
pub struct LoadError {
    pub path: String,
    pub cause: String,
}

/// A load error as mathematical values.
pub struct LoadErrorView {
    pub path: Seq<char>,
    pub cause: Seq<char>,
}

impl View for LoadError {
    type V = LoadErrorView;

    open spec fn view(&self) -> LoadErrorView {
        LoadErrorView { path: self.path@, cause: self.cause@ }
    }
}

/// How the search goes on.
#[derive(Debug)]
pub enum LoadStep {
    /// The caller is to look at this source and report what it found.
    Consult(ConfigSource),
    /// The search is over: these are the settings of the run.
    Loaded(Config),
    /// The search is over: there are no settings.
    Failed(LoadError),
}

/// A load step as mathematical values.
pub enum LoadStepView {
    Consult(ConfigSourceView),
    Loaded(ConfigView),
    Failed(LoadErrorView),
}

impl View for LoadStep {
    type V = LoadStepView;

    open spec fn view(&self) -> LoadStepView {
        match self {
            LoadStep::Consult(source) => LoadStepView::Consult(source@),
            LoadStep::Loaded(config) => LoadStepView::Loaded(config@),
            LoadStep::Failed(error) => LoadStepView::Failed(error@),
        }
    }
}

/// The first source to consult: the file named on the command line if there is one, else
/// the user's configuration directory.
pub open spec fn first_source(explicit: Option<Seq<char>>) -> ConfigSourceView {
    match explicit {
        Some(path) => ConfigSourceView::Explicit { path },
        None => ConfigSourceView::UserDirectory,
    }
}

/// What is said of a file that is not there.
pub open spec fn missing_file_message() -> Seq<char> {
    "Failed to read config file"@
}

/// How the search goes on after `found` was found at `source`.
pub open spec fn search_step(source: ConfigSourceView, found: LookupView) -> LoadStepView {
    match found {
        LookupView::Parsed(config) => LoadStepView::Loaded(config),
        LookupView::Missing => match source {
            ConfigSourceView::Explicit { path } => LoadStepView::Failed(
                LoadErrorView { path, cause: missing_file_message() },
            ),
            ConfigSourceView::UserDirectory => LoadStepView::Consult(
                ConfigSourceView::WorkingDirectory,
            ),
            ConfigSourceView::WorkingDirectory => LoadStepView::Loaded(default_config()),
        },
        LookupView::Unreadable { message } => match source {
            ConfigSourceView::Explicit { path } => LoadStepView::Failed(
                LoadErrorView { path, cause: message },
            ),
            ConfigSourceView::UserDirectory => LoadStepView::Consult(
                ConfigSourceView::WorkingDirectory,
            ),
            ConfigSourceView::WorkingDirectory => LoadStepView::Loaded(default_config()),
        },
    }
}

/// The path of a source's file, as its parts: the whole path for a named file, else the
/// names to append to the directory that the source stands for.
pub open spec fn source_file(source: ConfigSourceView) -> Seq<Seq<char>> {
    match source {
        ConfigSourceView::Explicit { path } => seq![path],
        ConfigSourceView::UserDirectory => seq!["scaffold"@, "scaffold.yml"@],
        ConfigSourceView::WorkingDirectory => seq!["scaffold.yml"@],
    }
}

/// The headline of a load error.
pub open spec fn load_error_message(error: LoadErrorView) -> Seq<char> {
    "Failed to load config from "@ + error.path
}

impl ConfigSource {
    /// The path of the source's file, as its parts.
    pub fn file(&self) -> (parts: Vec<String>)
        ensures
            texts(parts@) == source_file(self@),
    {
        let mut parts = Vec::new();
        match self {
            ConfigSource::Explicit { path } => {
                parts.push(path.clone());
            },
            ConfigSource::UserDirectory => {
                parts.push("scaffold".to_owned());
                parts.push("scaffold.yml".to_owned());
            },
            ConfigSource::WorkingDirectory => {
                parts.push("scaffold.yml".to_owned());
            },
        }
        assert(texts(parts@) =~= source_file(self@));
        parts
    }
}

impl LoadError {
    /// The headline of the error; `cause` holds what lies behind it.
    pub fn message(&self) -> (text: String)
        ensures
            text@ == load_error_message(self@),
    {
        let mut text = "Failed to load config from ".to_owned();
        text.append(self.path.as_str());
        text
    }
}

impl Config {
    /// Opens the search for the settings of a run: says which source to consult first.
    pub fn load(config_path: Option<&String>) -> (source: ConfigSource)
        ensures
            source@ == first_source(
                match config_path {
                    Some(path) => Some(path@),
                    None => None,
                },
            ),
    {
        match config_path {
            Some(path) => ConfigSource::Explicit { path: path.clone() },
            None => ConfigSource::UserDirectory,
        }
    }

    /// Goes on with the search after `found` was found at `source`. A file that loads ends
    /// the search. A named file that does not load ends it in failure. The other sources
    /// are passed over when they do not serve, and after the last of them the built-in
    /// settings are used.
    pub fn load_next(source: ConfigSource, found: Lookup) -> (step: LoadStep)
        ensures
            step@ == search_step(source@, found@),
    {
        match found {
            Lookup::Parsed(config) => LoadStep::Loaded(config),
            Lookup::Missing => match source {
                ConfigSource::Explicit { path } => LoadStep::Failed(
                    LoadError { path, cause: "Failed to read config file".to_owned() },
                ),
                ConfigSource::UserDirectory => LoadStep::Consult(ConfigSource::WorkingDirectory),
                ConfigSource::WorkingDirectory => LoadStep::Loaded(Config::default()),
            },
            Lookup::Unreadable { message } => match source {
                ConfigSource::Explicit { path } => LoadStep::Failed(
                    LoadError { path, cause: message },
                ),
                ConfigSource::UserDirectory => LoadStep::Consult(ConfigSource::WorkingDirectory),
                ConfigSource::WorkingDirectory => LoadStep::Loaded(Config::default()),
            },
        }
    }
}

/// Without a file named on the command line the search never fails, and it is over after
/// two lookups at most: the first file that loads gives the settings, and when neither
/// does, the built-in settings are used.
pub proof fn search_without_named_file_yields_settings(first: LookupView, second: LookupView)
    ensures
        first matches LookupView::Parsed(config) ==> search_step(
            first_source(None),
            first,
        ) == LoadStepView::Loaded(config),
        !(first is Parsed) ==> search_step(first_source(None), first) == LoadStepView::Consult(
            ConfigSourceView::WorkingDirectory,
        ),
        search_step(ConfigSourceView::WorkingDirectory, second) == LoadStepView::Loaded(
            match second {
                LookupView::Parsed(config) => config,
                _ => default_config(),
            },
        ),
{
}

/// A file named on the command line is the only source consulted: its settings are used
/// if it loads, and the search fails if it does not.
pub proof fn named_file_is_the_only_source(path: Seq<char>, found: LookupView)
    ensures
        first_source(Some(path)) == (ConfigSourceView::Explicit { path }),
        !(search_step(first_source(Some(path)), found) is Consult),
        search_step(first_source(Some(path)), found) is Loaded <==> found is Parsed,
        search_step(first_source(Some(path)), found) matches LoadStepView::Failed(error)
            ==> error.path == path,
{
}

} // verus!

//! The resolved request that a run works from.

use crate::cli::{Cli, CliView};
use crate::config::{Config, ConfigView};
use vstd::prelude::*;

verus! {

/// What one run is to produce. It is put together once, from the command line and the
/// configuration, and not changed afterwards.
#[derive(Debug, Clone, PartialEq, Eq)]
pub struct ProjectRequest {
    pub name: String,
    pub target_directory: String,
    /// The author actually written into the project.
    pub author: String,
    pub skip_version_control: bool,
    pub skip_dependencies: bool,
    pub skip_build_verification: bool,
}

/// A request as mathematical values.
pub struct ProjectRequestView {
    pub name: Seq<char>,
    pub target_directory: Seq<char>,
    pub author: Seq<char>,
    pub skip_version_control: bool,
    pub skip_dependencies: bool,
    pub skip_build_verification: bool,
}

impl View for ProjectRequest {
    type V = ProjectRequestView;

    open spec fn view(&self) -> ProjectRequestView {
        ProjectRequestView {
            name: self.name@,
            target_directory: self.target_directory@,
            author: self.author@,
            skip_version_control: self.skip_version_control,
            skip_dependencies: self.skip_dependencies,
            skip_build_verification: self.skip_build_verification,
        }
    }
}

/// The author to write into the project: the one given explicitly, else the configured one.
pub open spec fn effective_author(explicit: Option<Seq<char>>, configured: Seq<char>) -> Seq<char> {
    match explicit {
        Some(author) => author,
        None => configured,
    }
}

/// The directory to create the project in: the one given explicitly, else a directory
/// named after the project.
pub open spec fn effective_directory(explicit: Option<Seq<char>>, project: Seq<char>) -> Seq<
    char,
> {
    match explicit {
        Some(directory) => directory,
        None => project,
    }
}

/// The request that the command line and the configuration amount to.
pub open spec fn resolved_request(cli: CliView, config: ConfigView) -> ProjectRequestView {
    ProjectRequestView {
        name: cli.project,
        target_directory: effective_directory(cli.directory, cli.project),
        author: effective_author(cli.author, config.default_author),
        skip_version_control: cli.no_git,
        skip_dependencies: cli.no_deps,
        skip_build_verification: cli.skip_verify,
    }
}

impl ProjectRequest {
    /// Merges the command line with the configuration's defaults.
    pub fn resolve(cli: &Cli, config: &Config) -> (request: ProjectRequest)
        ensures
            request@ == resolved_request(cli@, config@),
    {
        let target_directory = match &cli.directory {
            Some(directory) => directory.clone(),
            None => cli.project.clone(),
        };
        let author = match &cli.author {
            Some(author) => author.clone(),
            None => config.default_author.clone(),
        };
        ProjectRequest {
            name: cli.project.clone(),
            target_directory,
            author,
            skip_version_control: cli.no_git,
            skip_dependencies: cli.no_deps,
            skip_build_verification: cli.skip_verify,
        }
    }
}

} // verus!

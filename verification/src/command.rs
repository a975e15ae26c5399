//! The external tool invocations that a run asks for, as plain values.

use crate::config::{Dependency, DependencyView};
use crate::text::{join, joined, texts};
use vstd::prelude::*;
use vstd::string::StringExecFns;

verus! {

/// One call of an external program: what to start, with which arguments, and where.
#[derive(Debug, Clone, PartialEq, Eq)]
pub struct Invocation {
    pub program: String,
    pub args: Vec<String>,
    pub working_directory: String,
}

/// An invocation as mathematical values.
pub struct InvocationView {
    pub program: Seq<char>,
    pub args: Seq<Seq<char>>,
    pub working_directory: Seq<char>,
}

impl View for Invocation {
    type V = InvocationView;

    open spec fn view(&self) -> InvocationView {
        InvocationView {
            program: self.program@,
            args: texts(self.args@),
            working_directory: self.working_directory@,
        }
    }
}

/// What came back from an external program that ran to its end.
#[derive(Debug, Clone, PartialEq, Eq)]
pub struct CommandOutput {
    /// Whether the program reported success through its exit status.
    pub success: bool,
    pub stdout: String,
    pub stderr: String,
}

/// Captured output as mathematical values.
pub struct CommandOutputView {
    pub success: bool,
    pub stdout: Seq<char>,
    pub stderr: Seq<char>,
}

impl View for CommandOutput {
    type V = CommandOutputView;

    open spec fn view(&self) -> CommandOutputView {
        CommandOutputView { success: self.success, stdout: self.stdout@, stderr: self.stderr@ }
    }
}

/// `git init`, run in the target directory.
pub open spec fn init_repository_invocation(directory: Seq<char>) -> InvocationView {
    InvocationView { program: "git"@, args: seq!["init"@], working_directory: directory }
}

/// `cargo add <name>`, followed by `--features=<a>,<b>,...` when the dependency names any
/// features, run in the target directory.
pub open spec fn add_dependency_invocation(
    dependency: DependencyView,
    directory: Seq<char>,
) -> InvocationView {
    InvocationView {
        program: "cargo"@,
        args: if dependency.features.len() == 0 {
            seq!["add"@, dependency.name]
        } else {
            seq!["add"@, dependency.name, "--features="@ + joined(dependency.features, ","@)]
        },
        working_directory: directory,
    }
}

/// `cargo build`, run in the target directory.
pub open spec fn build_invocation(directory: Seq<char>) -> InvocationView {
    InvocationView { program: "cargo"@, args: seq!["build"@], working_directory: directory }
}

impl Invocation {
    /// The call that initialises a version-control repository in `directory`.
    pub fn init_repository(directory: &str) -> (invocation: Invocation)
        ensures
            invocation@ == init_repository_invocation(directory@),
    {
        let mut args = Vec::new();
        args.push("init".to_owned());
        let invocation = Invocation {
            program: "git".to_owned(),
            args,
            working_directory: directory.to_owned(),
        };
        assert(invocation@.args =~= seq!["init"@]);
        invocation
    }

    /// The call that registers `dependency` in the manifest found in `directory`.
    pub fn add_dependency(dependency: &Dependency, directory: &str) -> (invocation: Invocation)
        ensures
            invocation@ == add_dependency_invocation(dependency@, directory@),
    {
        let mut args = Vec::new();
        args.push("add".to_owned());
        args.push(dependency.name.clone());
        if dependency.features.len() > 0 {
            let mut features = "--features=".to_owned();
            features.append(join(&dependency.features, ",").as_str());
            args.push(features);
        }
        let invocation = Invocation {
            program: "cargo".to_owned(),
            args,
            working_directory: directory.to_owned(),
        };
        assert(invocation@.args =~= add_dependency_invocation(dependency@, directory@).args);
        invocation
    }

    /// The call that builds the project in `directory`.
    pub fn build(directory: &str) -> (invocation: Invocation)
        ensures
            invocation@ == build_invocation(directory@),
    {
        let mut args = Vec::new();
        args.push("build".to_owned());
        let invocation = Invocation {
            program: "cargo".to_owned(),
            args,
            working_directory: directory.to_owned(),
        };
        assert(invocation@.args =~= seq!["build"@]);
        invocation
    }
}

} // verus!

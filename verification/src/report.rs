//! What a run tells the user: the text of its errors and warnings, and the closing summary.

use crate::name::validation_message;
use crate::protocol::{
    CommandFailure, CommandFailureView, IoOperation, PipelineError, PipelineErrorView, Stage,
    State, Warning, WarningView,
};
use crate::transitions::{error_stage, stage_of};
use crate::request::{ProjectRequest, ProjectRequestView};
use crate::text::{optional_text, texts};
use vstd::prelude::*;
use vstd::string::StringExecFns;

verus! {

/// The headline of an error: what failed, in one line.
pub open spec fn error_message(error: PipelineErrorView) -> Seq<char> {
    match error {
        PipelineErrorView::InvalidName(e) => validation_message(e),
        PipelineErrorView::DirectoryOccupied { path } => "Directory "@ + path
            + " already exists and contains non-repo files"@,
        PipelineErrorView::Io { operation, .. } => match operation {
            IoOperation::ReadDirectory => "Failed to read project directory"@,
            IoOperation::CreateDirectory => "Failed to create project directory"@,
            IoOperation::WriteFiles => "Failed to generate project files"@,
        },
        PipelineErrorView::DependencyNotAdded { name, .. } => "Failed to add dependency: "@ + name,
        PipelineErrorView::BuildFailed { failure } => match failure {
            CommandFailureView::NotStarted { .. } => "Failed to run cargo build"@,
            CommandFailureView::Exited { .. } => "Generated project failed to build"@,
        },
        PipelineErrorView::UnexpectedEvent { .. } => "Unexpected report for the pending action"@,
    }
}

/// What a failed command adds to an error: the reason why it did not start, or what it
/// wrote to standard error.
pub open spec fn failure_detail(failure: CommandFailureView) -> Seq<char> {
    match failure {
        CommandFailureView::NotStarted { message } => message,
        CommandFailureView::Exited { stderr } => stderr,
    }
}

/// What lies behind an error, where something does: the message of the I/O failure, or
/// the detail of the failed command.
pub open spec fn error_cause(error: PipelineErrorView) -> Option<Seq<char>> {
    match error {
        PipelineErrorView::Io { message, .. } => Some(message),
        PipelineErrorView::DependencyNotAdded { failure, .. } => Some(failure_detail(failure)),
        PipelineErrorView::BuildFailed { failure } => Some(failure_detail(failure)),
        _ => None,
    }
}

/// The text of a warning.
pub open spec fn warning_message(warning: WarningView) -> Seq<char> {
    match warning {
        WarningView::RepositoryNotInitialized { .. } =>
            "Git init failed, continuing without git repository"@,
    }
}

/// The closing summary of a successful run: how to enter the project and run it.
pub open spec fn summary_lines(request: ProjectRequestView) -> Seq<Seq<char>> {
    seq!["cd "@ + request.target_directory, "cargo run"@]
}

impl CommandFailure {
    /// The reason why the command did not start, or what it wrote to standard error.
    pub fn detail(&self) -> (text: String)
        ensures
            text@ == failure_detail(self@),
    {
        match self {
            CommandFailure::NotStarted { message } => message.clone(),
            CommandFailure::Exited { stderr } => stderr.clone(),
        }
    }
}

impl PipelineError {
    /// The stage in which the error arose.
    pub fn stage(&self) -> (stage: Stage)
        ensures
            stage == error_stage(self@),
    {
        match self {
            PipelineError::InvalidName(_) => Stage::Validating,
            PipelineError::DirectoryOccupied { .. } => Stage::PreparingDirectory,
            PipelineError::Io { operation, .. } => match operation {
                IoOperation::ReadDirectory => Stage::PreparingDirectory,
                IoOperation::CreateDirectory => Stage::PreparingDirectory,
                IoOperation::WriteFiles => Stage::Materializing,
            },
            PipelineError::DependencyNotAdded { .. } => Stage::ResolvingDependencies,
            PipelineError::BuildFailed { .. } => Stage::VerifyingBuild,
            PipelineError::UnexpectedEvent { stage } => *stage,
        }
    }

    /// The headline of the error.
    pub fn message(&self) -> (text: String)
        ensures
            text@ == error_message(self@),
    {
        match self {
            PipelineError::InvalidName(e) => e.message(),
            PipelineError::DirectoryOccupied { path } => {
                let mut text = "Directory ".to_owned();
                text.append(path.as_str());
                text.append(" already exists and contains non-repo files");
                text
            },
            PipelineError::Io { operation, .. } => match operation {
                IoOperation::ReadDirectory => "Failed to read project directory".to_owned(),
                IoOperation::CreateDirectory => "Failed to create project directory".to_owned(),
                IoOperation::WriteFiles => "Failed to generate project files".to_owned(),
            },
            PipelineError::DependencyNotAdded { name, .. } => {
                let mut text = "Failed to add dependency: ".to_owned();
                text.append(name.as_str());
                text
            },
            PipelineError::BuildFailed { failure } => match failure {
                CommandFailure::NotStarted { .. } => "Failed to run cargo build".to_owned(),
                CommandFailure::Exited { .. } => "Generated project failed to build".to_owned(),
            },
            PipelineError::UnexpectedEvent { .. } => {
                "Unexpected report for the pending action".to_owned()
            },
        }
    }

    /// What lies behind the error, where something does.
    pub fn cause(&self) -> (text: Option<String>)
        ensures
            optional_text(text) == error_cause(self@),
    {
        match self {
            PipelineError::Io { message, .. } => Some(message.clone()),
            PipelineError::DependencyNotAdded { failure, .. } => Some(failure.detail()),
            PipelineError::BuildFailed { failure } => Some(failure.detail()),
            _ => None,
        }
    }
}

impl Warning {
    /// The text of the warning.
    pub fn message(&self) -> (text: String)
        ensures
            text@ == warning_message(self@),
    {
        match self {
            Warning::RepositoryNotInitialized { .. } => {
                "Git init failed, continuing without git repository".to_owned()
            },
        }
    }
}

impl State {
    /// The stage that the state belongs to.
    pub fn stage(&self) -> (stage: Stage)
        ensures
            stage == stage_of(self@),
    {
        match self {
            State::InspectingDirectory => Stage::PreparingDirectory,
            State::CreatingDirectory => Stage::PreparingDirectory,
            State::Materializing => Stage::Materializing,
            State::ProbingRepository => Stage::InitializingVersionControl,
            State::InitializingRepository => Stage::InitializingVersionControl,
            State::ResolvingDependencies { .. } => Stage::ResolvingDependencies,
            State::VerifyingBuild => Stage::VerifyingBuild,
            State::Done => Stage::Done,
            State::Aborted(_) => Stage::Aborted,
        }
    }

    /// Whether the run is over.
    pub fn is_finished(&self) -> (finished: bool)
        ensures
            finished == (self@ is Done || self@ is Aborted),
    {
        match self {
            State::Done => true,
            State::Aborted(_) => true,
            _ => false,
        }
    }
}

/// The closing summary of a successful run: how to enter the project and run it.
pub fn next_steps(request: &ProjectRequest) -> (lines: Vec<String>)
    ensures
        texts(lines@) == summary_lines(request@),
{
    let mut enter = "cd ".to_owned();
    enter.append(request.target_directory.as_str());
    let mut lines = Vec::new();
    lines.push(enter);
    lines.push("cargo run".to_owned());
    assert(texts(lines@) =~= summary_lines(request@));
    lines
}

} // verus!

//! The vocabulary of a run: what the pipeline asks of its caller, what the caller reports
//! back, the states a run passes through, and the errors and warnings it can end with.
//! Each type comes with its mathematical counterpart, in which text is a sequence of
//! characters; the rules of the pipeline are stated over those.

use crate::command::{CommandOutput, CommandOutputView, Invocation, InvocationView};
use crate::name::ValidationError;
use crate::text::texts;
use vstd::prelude::*;

verus! {

/// The stages of a run, in the order in which they are passed through.
#[derive(Debug, Clone, Copy, PartialEq, Eq, Structural)]
pub enum Stage {
    Validating,
    PreparingDirectory,
    Materializing,
    InitializingVersionControl,
    ResolvingDependencies,
    VerifyingBuild,
    Done,
    Aborted,
}

/// How an external program let the run down.
#[derive(Debug, Clone, PartialEq, Eq)]
pub enum CommandFailure {
    /// The program could not be started.
    NotStarted { message: String },
    /// The program ran and reported failure; `stderr` is what it wrote to standard error.
    Exited { stderr: String },
}

/// A command failure as mathematical values.
pub enum CommandFailureView {
    NotStarted { message: Seq<char> },
    Exited { stderr: Seq<char> },
}

impl View for CommandFailure {
    type V = CommandFailureView;

    open spec fn view(&self) -> CommandFailureView {
        match self {
            CommandFailure::NotStarted { message } => CommandFailureView::NotStarted {
                message: message@,
            },
            CommandFailure::Exited { stderr } => CommandFailureView::Exited { stderr: stderr@ },
        }
    }
}

/// The file-system work that a run asks for.
#[derive(Debug, Clone, Copy, PartialEq, Eq, Structural)]
pub enum IoOperation {
    ReadDirectory,
    CreateDirectory,
    WriteFiles,
}

/// Why a run was aborted.
#[derive(Debug, Clone, PartialEq, Eq)]
pub enum PipelineError {
    /// The project name breaks a rule.
    InvalidName(ValidationError),
    /// The target directory holds something that is not repository scaffolding.
    DirectoryOccupied { path: String },
    /// Reading the directory, creating it or writing the project tree failed.
    Io { operation: IoOperation, message: String },
    /// The package manager did not register the dependency called `name`.
    DependencyNotAdded { name: String, failure: CommandFailure },
    /// The generated project was not built successfully.
    BuildFailed { failure: CommandFailure },
    /// The caller reported something that the pending action cannot have produced.
    UnexpectedEvent { stage: Stage },
}

/// An error as mathematical values.
pub enum PipelineErrorView {
    InvalidName(ValidationError),
    DirectoryOccupied { path: Seq<char> },
    Io { operation: IoOperation, message: Seq<char> },
    DependencyNotAdded { name: Seq<char>, failure: CommandFailureView },
    BuildFailed { failure: CommandFailureView },
    UnexpectedEvent { stage: Stage },
}

impl View for PipelineError {
    type V = PipelineErrorView;

    open spec fn view(&self) -> PipelineErrorView {
        match self {
            PipelineError::InvalidName(e) => PipelineErrorView::InvalidName(*e),
            PipelineError::DirectoryOccupied { path } => PipelineErrorView::DirectoryOccupied {
                path: path@,
            },
            PipelineError::Io { operation, message } => PipelineErrorView::Io {
                operation: *operation,
                message: message@,
            },
            PipelineError::DependencyNotAdded { name, failure } => {
                PipelineErrorView::DependencyNotAdded { name: name@, failure: failure@ }
            },
            PipelineError::BuildFailed { failure } => PipelineErrorView::BuildFailed {
                failure: failure@,
            },
            PipelineError::UnexpectedEvent { stage } => PipelineErrorView::UnexpectedEvent {
                stage: *stage,
            },
        }
    }
}

/// Something that went wrong without stopping the run.
#[derive(Debug, Clone, PartialEq, Eq)]
pub enum Warning {
    /// No repository was initialised; the project is usable without one.
    RepositoryNotInitialized { failure: CommandFailure },
}

/// A warning as mathematical values.
pub enum WarningView {
    RepositoryNotInitialized { failure: CommandFailureView },
}

impl View for Warning {
    type V = WarningView;

    open spec fn view(&self) -> WarningView {
        match self {
            Warning::RepositoryNotInitialized { failure } => {
                WarningView::RepositoryNotInitialized { failure: failure@ }
            },
        }
    }
}

/// The text of an optional warning.
pub open spec fn optional_warning(warning: Option<Warning>) -> Option<WarningView> {
    match warning {
        Some(w) => Some(w@),
        None => None,
    }
}

/// What the caller is asked to do next.
#[derive(Debug, Clone, PartialEq, Eq)]
pub enum Action {
    /// Find out whether anything exists at `path` and, if so, list its direct entries.
    InspectDirectory { path: String },
    /// Create the directory `path`, with any missing parents.
    CreateDirectory { path: String },
    /// Write the project tree for `name` into `path`, naming `author` as its author.
    Materialize { name: String, path: String, author: String },
    /// Find out whether `path` already holds a version-control repository.
    ProbeRepository { path: String },
    /// Run an external program and capture its output.
    Run(Invocation),
    /// Nothing: the run is over.
    Halt,
}

/// An action as mathematical values.
pub enum ActionView {
    InspectDirectory { path: Seq<char> },
    CreateDirectory { path: Seq<char> },
    Materialize { name: Seq<char>, path: Seq<char>, author: Seq<char> },
    ProbeRepository { path: Seq<char> },
    Run(InvocationView),
    Halt,
}

impl View for Action {
    type V = ActionView;

    open spec fn view(&self) -> ActionView {
        match self {
            Action::InspectDirectory { path } => ActionView::InspectDirectory { path: path@ },
            Action::CreateDirectory { path } => ActionView::CreateDirectory { path: path@ },
            Action::Materialize { name, path, author } => ActionView::Materialize {
                name: name@,
                path: path@,
                author: author@,
            },
            Action::ProbeRepository { path } => ActionView::ProbeRepository { path: path@ },
            Action::Run(invocation) => ActionView::Run(invocation@),
            Action::Halt => ActionView::Halt,
        }
    }
}

/// What the caller reports after carrying out an action.
#[derive(Debug, Clone, PartialEq, Eq)]
pub enum Event {
    /// The answer to `InspectDirectory`.
    DirectoryInspected { exists: bool, children: Vec<String> },
    /// `CreateDirectory` or `Materialize` was carried out.
    Completed,
    /// The answer to `ProbeRepository`.
    RepositoryProbed { exists: bool },
    /// The program of a `Run` action ran to its end.
    CommandExited(CommandOutput),
    /// The action could not be carried out: an I/O error, or a program that did not start.
    Failed { message: String },
}

/// An event as mathematical values.
pub enum EventView {
    DirectoryInspected { exists: bool, children: Seq<Seq<char>> },
    Completed,
    RepositoryProbed { exists: bool },
    CommandExited(CommandOutputView),
    Failed { message: Seq<char> },
}

impl View for Event {
    type V = EventView;

    open spec fn view(&self) -> EventView {
        match self {
            Event::DirectoryInspected { exists, children } => EventView::DirectoryInspected {
                exists: *exists,
                children: texts(children@),
            },
            Event::Completed => EventView::Completed,
            Event::RepositoryProbed { exists } => EventView::RepositoryProbed { exists: *exists },
            Event::CommandExited(output) => EventView::CommandExited(output@),
            Event::Failed { message } => EventView::Failed { message: message@ },
        }
    }
}

/// Where a run stands: which answer it is waiting for, or how it ended.
#[derive(Debug, Clone, PartialEq, Eq)]
pub enum State {
    /// Waiting to hear what the target directory holds.
    InspectingDirectory,
    /// Waiting for the target directory to be created.
    CreatingDirectory,
    /// Waiting for the project tree to be written.
    Materializing,
    /// Waiting to hear whether a repository is already there.
    ProbingRepository,
    /// Waiting for the repository to be initialised.
    InitializingRepository,
    /// Waiting for the dependency at `index` to be registered.
    ResolvingDependencies { index: usize },
    /// Waiting for the build to finish.
    VerifyingBuild,
    /// The run succeeded.
    Done,
    /// The run failed.
    Aborted(PipelineError),
}

/// A state as mathematical values.
pub enum StateView {
    InspectingDirectory,
    CreatingDirectory,
    Materializing,
    ProbingRepository,
    InitializingRepository,
    ResolvingDependencies { index: nat },
    VerifyingBuild,
    Done,
    Aborted(PipelineErrorView),
}

impl View for State {
    type V = StateView;

    open spec fn view(&self) -> StateView {
        match self {
            State::InspectingDirectory => StateView::InspectingDirectory,
            State::CreatingDirectory => StateView::CreatingDirectory,
            State::Materializing => StateView::Materializing,
            State::ProbingRepository => StateView::ProbingRepository,
            State::InitializingRepository => StateView::InitializingRepository,
            State::ResolvingDependencies { index } => StateView::ResolvingDependencies {
                index: *index as nat,
            },
            State::VerifyingBuild => StateView::VerifyingBuild,
            State::Done => StateView::Done,
            State::Aborted(error) => StateView::Aborted(error@),
        }
    }
}

/// One move of the pipeline: the state it is now in, what the caller is to do next, and a
/// warning if the stage just left ended with one.
#[derive(Debug, Clone, PartialEq, Eq)]
pub struct Step {
    pub state: State,
    pub action: Action,
    pub warning: Option<Warning>,
}

/// A step as mathematical values.
pub struct StepView {
    pub state: StateView,
    pub action: ActionView,
    pub warning: Option<WarningView>,
}

impl View for Step {
    type V = StepView;

    open spec fn view(&self) -> StepView {
        StepView {
            state: self.state@,
            action: self.action@,
            warning: optional_warning(self.warning),
        }
    }
}

/// How the stage that a step has just left came out. Success and a warning let the run go
/// on; a fatal outcome has aborted it.
#[derive(Debug, Clone, Copy, PartialEq, Eq)]
pub enum StageOutcome<'a> {
    Success,
    Warning(&'a Warning),
    Fatal(&'a PipelineError),
}

/// An outcome as mathematical values.
pub enum StageOutcomeView {
    Success,
    Warning(WarningView),
    Fatal(PipelineErrorView),
}

impl<'a> View for StageOutcome<'a> {
    type V = StageOutcomeView;

    open spec fn view(&self) -> StageOutcomeView {
        match self {
            StageOutcome::Success => StageOutcomeView::Success,
            StageOutcome::Warning(warning) => StageOutcomeView::Warning(warning@),
            StageOutcome::Fatal(error) => StageOutcomeView::Fatal(error@),
        }
    }
}

/// The outcome that a step carries: fatal where the run is aborted, else a warning where
/// there is one, else success.
pub open spec fn outcome_of(step: StepView) -> StageOutcomeView {
    match step.state {
        StateView::Aborted(error) => StageOutcomeView::Fatal(error),
        _ => match step.warning {
            Some(warning) => StageOutcomeView::Warning(warning),
            None => StageOutcomeView::Success,
        },
    }
}

impl Step {
    /// How the stage just left came out.
    pub fn outcome(&self) -> (outcome: StageOutcome<'_>)
        ensures
            outcome@ == outcome_of(self@),
    {
        match &self.state {
            State::Aborted(error) => StageOutcome::Fatal(error),
            _ => match &self.warning {
                Some(warning) => StageOutcome::Warning(warning),
                None => StageOutcome::Success,
            },
        }
    }
}

} // verus!

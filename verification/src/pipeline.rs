//! The materialisation pipeline as a state machine.
//!
//! A run is a conversation. The pipeline says what is to be done next (an `Action`); the
//! caller does it and reports what happened (an `Event`); the pipeline then decides how to
//! go on. The pipeline itself touches neither the file system nor any external program, so
//! a run can be followed, and tried out, with reports that are made up.

use crate::command::Invocation;
use crate::config::Config;
use crate::directory::{classify, DirectoryState};
use crate::name::validate_project_name;
use crate::protocol::{
    optional_warning, Action, CommandFailure, Event, IoOperation, PipelineError,
    PipelineErrorView, Stage, State, Step, Warning,
};
use crate::request::ProjectRequest;
use crate::transitions::{
    aborted_step, after_dependencies, after_materializing, after_version_control, build_step,
    dependencies_step, dependency_step, directory_step, done_step, first_step, materialize_step,
    next_step, version_control_step,
};
use vstd::prelude::*;

verus! {

fn abort(error: PipelineError) -> (step: Step)
    ensures
        step@ == aborted_step(error@),
{
    Step { state: State::Aborted(error), action: Action::Halt, warning: None }
}

fn unexpected(stage: Stage) -> (step: Step)
    ensures
        step@ == aborted_step(PipelineErrorView::UnexpectedEvent { stage }),
{
    abort(PipelineError::UnexpectedEvent { stage })
}

fn done(warning: Option<Warning>) -> (step: Step)
    ensures
        step@ == done_step(optional_warning(warning)),
{
    Step { state: State::Done, action: Action::Halt, warning }
}

fn start_materializing(request: &ProjectRequest) -> (step: Step)
    ensures
        step@ == materialize_step(request@),
{
    Step {
        state: State::Materializing,
        action: Action::Materialize {
            name: request.name.clone(),
            path: request.target_directory.clone(),
            author: request.author.clone(),
        },
        warning: None,
    }
}

fn leave_dependencies(request: &ProjectRequest, warning: Option<Warning>) -> (step: Step)
    ensures
        step@ == after_dependencies(request@, optional_warning(warning)),
{
    if request.skip_build_verification {
        done(warning)
    } else {
        Step {
            state: State::VerifyingBuild,
            action: Action::Run(Invocation::build(request.target_directory.as_str())),
            warning,
        }
    }
}

fn request_dependency(
    request: &ProjectRequest,
    config: &Config,
    index: usize,
    warning: Option<Warning>,
) -> (step: Step)
    ensures
        step@ == dependency_step(request@, config@, index as nat, optional_warning(warning)),
{
    if index < config.template.dependencies.len() {
        Step {
            state: State::ResolvingDependencies { index },
            action: Action::Run(
                Invocation::add_dependency(
                    &config.template.dependencies[index],
                    request.target_directory.as_str(),
                ),
            ),
            warning,
        }
    } else {
        leave_dependencies(request, warning)
    }
}

fn leave_version_control(
    request: &ProjectRequest,
    config: &Config,
    warning: Option<Warning>,
) -> (step: Step)
    ensures
        step@ == after_version_control(request@, config@, optional_warning(warning)),
{
    if request.skip_dependencies {
        leave_dependencies(request, warning)
    } else {
        request_dependency(request, config, 0, warning)
    }
}

fn leave_materializing(request: &ProjectRequest, config: &Config) -> (step: Step)
    ensures
        step@ == after_materializing(request@, config@),
{
    if !request.skip_version_control && config.create_git_repo {
        Step {
            state: State::ProbingRepository,
            action: Action::ProbeRepository { path: request.target_directory.clone() },
            warning: None,
        }
    } else {
        leave_version_control(request, config, None)
    }
}

/// Opens a run. The project name is validated before anything else: an invalid name ends
/// the run at once, with nothing asked of the caller; a valid one leads to the inspection
/// of the target directory.
pub fn create_project(request: &ProjectRequest) -> (step: Step)
    ensures
        step@ == first_step(request@),
{
    match validate_project_name(request.name.as_str()) {
        Err(error) => abort(PipelineError::InvalidName(error)),
        Ok(_) => Step {
            state: State::InspectingDirectory,
            action: Action::InspectDirectory { path: request.target_directory.clone() },
            warning: None,
        },
    }
}

/// The directory stage. A directory that does not exist is created. One that is empty, or
/// holds nothing but repository scaffolding, is used as it is. Any other directory aborts
/// the run before anything is written.
pub fn prepare_directory(request: &ProjectRequest, state: State, event: Event) -> (step: Step)
    ensures
        step@ == directory_step(request@, state@, event@),
{
    match state {
        State::InspectingDirectory => match event {
            Event::DirectoryInspected { exists, children } => match classify(exists, &children) {
                DirectoryState::Absent => Step {
                    state: State::CreatingDirectory,
                    action: Action::CreateDirectory { path: request.target_directory.clone() },
                    warning: None,
                },
                DirectoryState::Occupied => abort(
                    PipelineError::DirectoryOccupied { path: request.target_directory.clone() },
                ),
                DirectoryState::EmptyExisting | DirectoryState::ScaffoldableExisting => {
                    start_materializing(request)
                },
            },
            Event::Failed { message } => abort(
                PipelineError::Io { operation: IoOperation::ReadDirectory, message },
            ),
            _ => unexpected(Stage::PreparingDirectory),
        },
        State::CreatingDirectory => match event {
            Event::Completed => start_materializing(request),
            Event::Failed { message } => abort(
                PipelineError::Io { operation: IoOperation::CreateDirectory, message },
            ),
            _ => unexpected(Stage::PreparingDirectory),
        },
        _ => unexpected(Stage::PreparingDirectory),
    }
}

/// The version-control stage. A repository that is already there is left alone and no
/// program is run. Otherwise the repository is initialised; if that fails, the run goes on
/// with a warning.
pub fn init_git_repo(
    request: &ProjectRequest,
    config: &Config,
    state: State,
    event: Event,
) -> (step: Step)
    ensures
        step@ == version_control_step(request@, config@, state@, event@),
{
    match state {
        State::ProbingRepository => match event {
            Event::RepositoryProbed { exists } => if exists {
                leave_version_control(request, config, None)
            } else {
                Step {
                    state: State::InitializingRepository,
                    action: Action::Run(
                        Invocation::init_repository(request.target_directory.as_str()),
                    ),
                    warning: None,
                }
            },
            Event::Failed { message } => leave_version_control(
                request,
                config,
                Some(
                    Warning::RepositoryNotInitialized {
                        failure: CommandFailure::NotStarted { message },
                    },
                ),
            ),
            _ => unexpected(Stage::InitializingVersionControl),
        },
        State::InitializingRepository => match event {
            Event::CommandExited(output) => if output.success {
                leave_version_control(request, config, None)
            } else {
                leave_version_control(
                    request,
                    config,
                    Some(
                        Warning::RepositoryNotInitialized {
                            failure: CommandFailure::Exited { stderr: output.stderr },
                        },
                    ),
                )
            },
            Event::Failed { message } => leave_version_control(
                request,
                config,
                Some(
                    Warning::RepositoryNotInitialized {
                        failure: CommandFailure::NotStarted { message },
                    },
                ),
            ),
            _ => unexpected(Stage::InitializingVersionControl),
        },
        _ => unexpected(Stage::InitializingVersionControl),
    }
}

/// The dependency stage, after the package manager was asked for the dependency at
/// `index`. Success leads to the next dependency in the configured order, or out of the
/// stage after the last. Failure aborts the run with an error that names the dependency.
pub fn add_dependencies(
    request: &ProjectRequest,
    config: &Config,
    index: usize,
    event: Event,
) -> (step: Step)
    ensures
        step@ == dependencies_step(request@, config@, index as nat, event@),
{
    if index >= config.template.dependencies.len() {
        return unexpected(Stage::ResolvingDependencies);
    }
    match event {
        Event::CommandExited(output) => if output.success {
            request_dependency(request, config, index + 1, None)
        } else {
            abort(
                PipelineError::DependencyNotAdded {
                    name: config.template.dependencies[index].name.clone(),
                    failure: CommandFailure::Exited { stderr: output.stderr },
                },
            )
        },
        Event::Failed { message } => abort(
            PipelineError::DependencyNotAdded {
                name: config.template.dependencies[index].name.clone(),
                failure: CommandFailure::NotStarted { message },
            },
        ),
        _ => unexpected(Stage::ResolvingDependencies),
    }
}

/// The build stage, after the build tool was asked to build the project. A failed build
/// aborts the run, and what it wrote to standard error is part of the error.
pub fn verify_build(event: Event) -> (step: Step)
    ensures
        step@ == build_step(event@),
{
    match event {
        Event::CommandExited(output) => if output.success {
            done(None)
        } else {
            abort(
                PipelineError::BuildFailed {
                    failure: CommandFailure::Exited { stderr: output.stderr },
                },
            )
        },
        Event::Failed { message } => abort(
            PipelineError::BuildFailed { failure: CommandFailure::NotStarted { message } },
        ),
        _ => unexpected(Stage::VerifyingBuild),
    }
}

/// Moves a run on: given the state it is in and what the caller reports, says which state
/// comes next and what the caller is to do. A run that is over stays as it is.
pub fn advance(request: &ProjectRequest, config: &Config, state: State, event: Event) -> (step:
    Step)
    ensures
        step@ == next_step(request@, config@, state@, event@),
{
    match state {
        State::InspectingDirectory | State::CreatingDirectory => prepare_directory(
            request,
            state,
            event,
        ),
        State::Materializing => match event {
            Event::Completed => leave_materializing(request, config),
            Event::Failed { message } => abort(
                PipelineError::Io { operation: IoOperation::WriteFiles, message },
            ),
            _ => unexpected(Stage::Materializing),
        },
        State::ProbingRepository | State::InitializingRepository => init_git_repo(
            request,
            config,
            state,
            event,
        ),
        State::ResolvingDependencies { index } => add_dependencies(request, config, index, event),
        State::VerifyingBuild => verify_build(event),
        State::Done => done(None),
        State::Aborted(error) => abort(error),
    }
}

} // verus!

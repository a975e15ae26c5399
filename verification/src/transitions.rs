//! The rules of the pipeline: which step follows which state and report.
//!
//! The stages follow each other in one fixed order and none is entered twice: validating
//! the name, preparing the directory, materialising the project tree, and then the three
//! optional stages of initialising version control, resolving dependencies and verifying
//! the build. A failure aborts the run, except in the version-control stage, where it
//! becomes a warning. Nothing that an earlier stage did is undone.

use crate::command::{add_dependency_invocation, build_invocation, init_repository_invocation};
use crate::config::ConfigView;
use crate::directory::{directory_state, DirectoryState};
use crate::name::name_verdict;
use crate::protocol::{
    ActionView, CommandFailureView, EventView, IoOperation, PipelineErrorView, Stage, StateView,
    StepView, WarningView,
};
use crate::request::ProjectRequestView;
use vstd::prelude::*;

verus! {

/// The stage that a state belongs to.
pub open spec fn stage_of(state: StateView) -> Stage {
    match state {
        StateView::InspectingDirectory => Stage::PreparingDirectory,
        StateView::CreatingDirectory => Stage::PreparingDirectory,
        StateView::Materializing => Stage::Materializing,
        StateView::ProbingRepository => Stage::InitializingVersionControl,
        StateView::InitializingRepository => Stage::InitializingVersionControl,
        StateView::ResolvingDependencies { .. } => Stage::ResolvingDependencies,
        StateView::VerifyingBuild => Stage::VerifyingBuild,
        StateView::Done => Stage::Done,
        StateView::Aborted(_) => Stage::Aborted,
    }
}

/// The stage in which an error arises.
pub open spec fn error_stage(error: PipelineErrorView) -> Stage {
    match error {
        PipelineErrorView::InvalidName(_) => Stage::Validating,
        PipelineErrorView::DirectoryOccupied { .. } => Stage::PreparingDirectory,
        PipelineErrorView::Io { operation, .. } => match operation {
            IoOperation::ReadDirectory => Stage::PreparingDirectory,
            IoOperation::CreateDirectory => Stage::PreparingDirectory,
            IoOperation::WriteFiles => Stage::Materializing,
        },
        PipelineErrorView::DependencyNotAdded { .. } => Stage::ResolvingDependencies,
        PipelineErrorView::BuildFailed { .. } => Stage::VerifyingBuild,
        PipelineErrorView::UnexpectedEvent { stage } => stage,
    }
}

/// The warning that no repository was initialised.
pub open spec fn not_initialized(failure: CommandFailureView) -> WarningView {
    WarningView::RepositoryNotInitialized { failure }
}

/// The step that ends a run in failure.
pub open spec fn aborted_step(error: PipelineErrorView) -> StepView {
    StepView { state: StateView::Aborted(error), action: ActionView::Halt, warning: None }
}

/// The step that ends a run in success.
pub open spec fn done_step(warning: Option<WarningView>) -> StepView {
    StepView { state: StateView::Done, action: ActionView::Halt, warning }
}

/// The step into the materialising stage.
pub open spec fn materialize_step(request: ProjectRequestView) -> StepView {
    StepView {
        state: StateView::Materializing,
        action: ActionView::Materialize {
            name: request.name,
            path: request.target_directory,
            author: request.author,
        },
        warning: None,
    }
}

/// Whether this run has a version-control stage: neither the request nor the configuration
/// switches it off.
pub open spec fn wants_version_control(request: ProjectRequestView, config: ConfigView) -> bool {
    !request.skip_version_control && config.create_git_repo
}

/// The step taken once the build is the next thing to think of.
pub open spec fn after_dependencies(
    request: ProjectRequestView,
    warning: Option<WarningView>,
) -> StepView {
    if request.skip_build_verification {
        done_step(warning)
    } else {
        StepView {
            state: StateView::VerifyingBuild,
            action: ActionView::Run(build_invocation(request.target_directory)),
            warning,
        }
    }
}

/// The step taken when the dependencies before `index` are registered: the next one is
/// asked for, or the stage is left when there is none.
pub open spec fn dependency_step(
    request: ProjectRequestView,
    config: ConfigView,
    index: nat,
    warning: Option<WarningView>,
) -> StepView {
    if index < config.template.dependencies.len() {
        StepView {
            state: StateView::ResolvingDependencies { index },
            action: ActionView::Run(
                add_dependency_invocation(
                    config.template.dependencies[index as int],
                    request.target_directory,
                ),
            ),
            warning,
        }
    } else {
        after_dependencies(request, warning)
    }
}

/// The step taken once version control is dealt with, one way or another.
pub open spec fn after_version_control(
    request: ProjectRequestView,
    config: ConfigView,
    warning: Option<WarningView>,
) -> StepView {
    if request.skip_dependencies {
        after_dependencies(request, warning)
    } else {
        dependency_step(request, config, 0, warning)
    }
}

/// The step taken once the project tree is written.
pub open spec fn after_materializing(request: ProjectRequestView, config: ConfigView) -> StepView {
    if wants_version_control(request, config) {
        StepView {
            state: StateView::ProbingRepository,
            action: ActionView::ProbeRepository { path: request.target_directory },
            warning: None,
        }
    } else {
        after_version_control(request, config, None)
    }
}

/// The first step of a run: the name is validated, and a valid name leads to the
/// inspection of the target directory.
pub open spec fn first_step(request: ProjectRequestView) -> StepView {
    match name_verdict(request.name) {
        Err(error) => aborted_step(PipelineErrorView::InvalidName(error)),
        Ok(_) => StepView {
            state: StateView::InspectingDirectory,
            action: ActionView::InspectDirectory { path: request.target_directory },
            warning: None,
        },
    }
}

/// The step taken in the directory stage.
pub open spec fn directory_step(
    request: ProjectRequestView,
    state: StateView,
    event: EventView,
) -> StepView {
    let unexpected = aborted_step(
        PipelineErrorView::UnexpectedEvent { stage: Stage::PreparingDirectory },
    );
    match state {
        StateView::InspectingDirectory => match event {
            EventView::DirectoryInspected { exists, children } => match directory_state(
                exists,
                children,
            ) {
                DirectoryState::Absent => StepView {
                    state: StateView::CreatingDirectory,
                    action: ActionView::CreateDirectory { path: request.target_directory },
                    warning: None,
                },
                DirectoryState::Occupied => aborted_step(
                    PipelineErrorView::DirectoryOccupied { path: request.target_directory },
                ),
                DirectoryState::EmptyExisting | DirectoryState::ScaffoldableExisting => {
                    materialize_step(request)
                },
            },
            EventView::Failed { message } => aborted_step(
                PipelineErrorView::Io { operation: IoOperation::ReadDirectory, message },
            ),
            _ => unexpected,
        },
        StateView::CreatingDirectory => match event {
            EventView::Completed => materialize_step(request),
            EventView::Failed { message } => aborted_step(
                PipelineErrorView::Io { operation: IoOperation::CreateDirectory, message },
            ),
            _ => unexpected,
        },
        _ => unexpected,
    }
}

/// The step taken in the version-control stage. A repository that is already there is left
/// alone. Whatever goes wrong here is a warning, and the run goes on.
pub open spec fn version_control_step(
    request: ProjectRequestView,
    config: ConfigView,
    state: StateView,
    event: EventView,
) -> StepView {
    let unexpected = aborted_step(
        PipelineErrorView::UnexpectedEvent { stage: Stage::InitializingVersionControl },
    );
    match state {
        StateView::ProbingRepository => match event {
            EventView::RepositoryProbed { exists } => if exists {
                after_version_control(request, config, None)
            } else {
                StepView {
                    state: StateView::InitializingRepository,
                    action: ActionView::Run(init_repository_invocation(request.target_directory)),
                    warning: None,
                }
            },
            EventView::Failed { message } => after_version_control(
                request,
                config,
                Some(not_initialized(CommandFailureView::NotStarted { message })),
            ),
            _ => unexpected,
        },
        StateView::InitializingRepository => match event {
            EventView::CommandExited(output) => if output.success {
                after_version_control(request, config, None)
            } else {
                after_version_control(
                    request,
                    config,
                    Some(not_initialized(CommandFailureView::Exited { stderr: output.stderr })),
                )
            },
            EventView::Failed { message } => after_version_control(
                request,
                config,
                Some(not_initialized(CommandFailureView::NotStarted { message })),
            ),
            _ => unexpected,
        },
        _ => unexpected,
    }
}

/// The step taken when the package manager has been asked for the dependency at `index`.
/// The first dependency that is not registered aborts the run; those after it are never
/// asked for.
pub open spec fn dependencies_step(
    request: ProjectRequestView,
    config: ConfigView,
    index: nat,
    event: EventView,
) -> StepView {
    if index >= config.template.dependencies.len() {
        aborted_step(PipelineErrorView::UnexpectedEvent { stage: Stage::ResolvingDependencies })
    } else {
        let name = config.template.dependencies[index as int].name;
        match event {
            EventView::CommandExited(output) => if output.success {
                dependency_step(request, config, index + 1, None)
            } else {
                aborted_step(
                    PipelineErrorView::DependencyNotAdded {
                        name,
                        failure: CommandFailureView::Exited { stderr: output.stderr },
                    },
                )
            },
            EventView::Failed { message } => aborted_step(
                PipelineErrorView::DependencyNotAdded {
                    name,
                    failure: CommandFailureView::NotStarted { message },
                },
            ),
            _ => aborted_step(
                PipelineErrorView::UnexpectedEvent { stage: Stage::ResolvingDependencies },
            ),
        }
    }
}

/// The step taken when the build tool has been asked to build the project. What a failed
/// build wrote to standard error is handed on as it is.
pub open spec fn build_step(event: EventView) -> StepView {
    match event {
        EventView::CommandExited(output) => if output.success {
            done_step(None)
        } else {
            aborted_step(
                PipelineErrorView::BuildFailed {
                    failure: CommandFailureView::Exited { stderr: output.stderr },
                },
            )
        },
        EventView::Failed { message } => aborted_step(
            PipelineErrorView::BuildFailed { failure: CommandFailureView::NotStarted { message } },
        ),
        _ => aborted_step(PipelineErrorView::UnexpectedEvent { stage: Stage::VerifyingBuild }),
    }
}

/// The step that follows `state` when the caller reports `event`.
pub open spec fn next_step(
    request: ProjectRequestView,
    config: ConfigView,
    state: StateView,
    event: EventView,
) -> StepView {
    match state {
        StateView::InspectingDirectory | StateView::CreatingDirectory => directory_step(
            request,
            state,
            event,
        ),
        StateView::Materializing => match event {
            EventView::Completed => after_materializing(request, config),
            EventView::Failed { message } => aborted_step(
                PipelineErrorView::Io { operation: IoOperation::WriteFiles, message },
            ),
            _ => aborted_step(PipelineErrorView::UnexpectedEvent { stage: Stage::Materializing }),
        },
        StateView::ProbingRepository | StateView::InitializingRepository => version_control_step(
            request,
            config,
            state,
            event,
        ),
        StateView::ResolvingDependencies { index } => dependencies_step(
            request,
            config,
            index,
            event,
        ),
        StateView::VerifyingBuild => build_step(event),
        StateView::Done => done_step(None),
        StateView::Aborted(error) => aborted_step(error),
    }
}

} // verus!

//! What holds of every run of the pipeline, proved from the definition of its steps.

use crate::command::{add_dependency_invocation, init_repository_invocation, CommandOutputView};
use crate::config::ConfigView;
use crate::directory::{all_allowed, directory_state, DirectoryState};
use crate::name::{is_valid_name, name_verdict};
use crate::protocol::{
    ActionView, CommandFailureView, EventView, PipelineErrorView, Stage, StateView, StepView,
};
use crate::transitions::{
    aborted_step, after_dependencies, after_materializing, after_version_control,
    dependency_step, done_step, error_stage, first_step, materialize_step, next_step,
    not_initialized, stage_of, wants_version_control,
};
use crate::request::ProjectRequestView;
use vstd::prelude::*;

verus! {

/// Where a run stands after `start` when the caller reports `events` in turn.
pub open spec fn run_from(
    request: ProjectRequestView,
    config: ConfigView,
    start: StepView,
    events: Seq<EventView>,
) -> StepView
    decreases events.len(),
{
    if events.len() == 0 {
        start
    } else {
        next_step(
            request,
            config,
            run_from(request, config, start, events.drop_last()).state,
            events.last(),
        )
    }
}

/// Where a run stands when the caller has reported `events` in turn since it was opened.
pub open spec fn run(
    request: ProjectRequestView,
    config: ConfigView,
    events: Seq<EventView>,
) -> StepView {
    run_from(request, config, first_step(request), events)
}

/// The place of a stage in the fixed order. An aborted run has left the order for good.
pub open spec fn stage_rank(stage: Stage) -> nat {
    match stage {
        Stage::Validating => 0,
        Stage::PreparingDirectory => 1,
        Stage::Materializing => 2,
        Stage::InitializingVersionControl => 3,
        Stage::ResolvingDependencies => 4,
        Stage::VerifyingBuild => 5,
        Stage::Done => 6,
        Stage::Aborted => 7,
    }
}

/// The caller reports that something did not work: an action that could not be carried
/// out, or a program that ran and reported failure.
pub open spec fn reports_failure(event: EventView) -> bool {
    match event {
        EventView::Failed { .. } => true,
        EventView::CommandExited(output) => !output.success,
        _ => false,
    }
}

/// The caller reports that a program ran and reported success.
pub open spec fn reports_success(event: EventView) -> bool {
    event matches EventView::CommandExited(output) && output.success
}

/// The failure that an event reports: what the program wrote to standard error, or why the
/// action could not be carried out. Other reports carry no failure and give an empty one.
pub open spec fn reported_failure(event: EventView) -> CommandFailureView {
    match event {
        EventView::CommandExited(output) => CommandFailureView::Exited { stderr: output.stderr },
        EventView::Failed { message } => CommandFailureView::NotStarted { message },
        _ => CommandFailureView::NotStarted { message: Seq::empty() },
    }
}

/// A run that is over stays as it is: whatever is reported, the state is kept and nothing
/// more is asked of the caller.
pub proof fn finished_runs_stay_finished(
    request: ProjectRequestView,
    config: ConfigView,
    state: StateView,
    event: EventView,
)
    requires
        state is Done || state is Aborted,
    ensures
        next_step(request, config, state, event).state == state,
        next_step(request, config, state, event).action == ActionView::Halt,
        next_step(request, config, state, event).warning is None,
{
}

/// Once a run is over, every later report leaves it where it is.
pub proof fn finished_runs_stay_finished_for_good(
    request: ProjectRequestView,
    config: ConfigView,
    start: StepView,
    events: Seq<EventView>,
)
    requires
        start.state is Done || start.state is Aborted,
    ensures
        run_from(request, config, start, events).state == start.state,
        events.len() > 0 ==> run_from(request, config, start, events).action == ActionView::Halt,
    decreases events.len(),
{
    if events.len() > 0 {
        finished_runs_stay_finished_for_good(request, config, start, events.drop_last());
    }
}

/// A run can be followed in two parts: the place reached after the first reports is where
/// the remaining ones take over.
pub proof fn runs_compose(
    request: ProjectRequestView,
    config: ConfigView,
    start: StepView,
    first: Seq<EventView>,
    second: Seq<EventView>,
)
    ensures
        run_from(request, config, start, first + second) == run_from(
            request,
            config,
            run_from(request, config, start, first),
            second,
        ),
    decreases second.len(),
{
    if second.len() == 0 {
        assert(first + second =~= first);
    } else {
        runs_compose(request, config, start, first, second.drop_last());
        assert((first + second).drop_last() =~= first + second.drop_last());
        assert((first + second).last() == second.last());
    }
}

/// A single report moves a run by one step.
pub proof fn one_report_is_one_step(
    request: ProjectRequestView,
    config: ConfigView,
    start: StepView,
    event: EventView,
)
    ensures
        run_from(request, config, start, seq![event]) == next_step(
            request,
            config,
            start.state,
            event,
        ),
{
    assert(seq![event].drop_last() =~= Seq::<EventView>::empty());
    assert(run_from(request, config, start, Seq::<EventView>::empty()) == start);
    assert(seq![event].last() == event);
}

/// The stages are passed through in one order and none is gone back to: a step leaves the
/// run in the stage it was in, or in a later one. Within the dependency stage the position
/// in the list only grows.
pub proof fn stages_never_go_back(
    request: ProjectRequestView,
    config: ConfigView,
    state: StateView,
    event: EventView,
)
    ensures
        stage_rank(stage_of(state)) <= stage_rank(
            stage_of(next_step(request, config, state, event).state),
        ),
        state matches StateView::ResolvingDependencies { index } ==> (next_step(
            request,
            config,
            state,
            event,
        ).state matches StateView::ResolvingDependencies { index: later } ==> later == index + 1),
{
}

/// A name that breaks a rule ends the run before anything is asked of the caller: the run
/// opens in the aborted state, the error carries the rule that was broken, and no report
/// changes that.
pub proof fn invalid_name_touches_nothing(
    request: ProjectRequestView,
    config: ConfigView,
    events: Seq<EventView>,
)
    requires
        !is_valid_name(request.name),
    ensures
        name_verdict(request.name) is Err,
        run(request, config, events).state == StateView::Aborted(
            PipelineErrorView::InvalidName(name_verdict(request.name)->Err_0),
        ),
        run(request, config, events).action == ActionView::Halt,
{
    finished_runs_stay_finished_for_good(request, config, first_step(request), events);
}

/// A valid name leads to the inspection of the target directory and to nothing else.
pub proof fn valid_name_inspects_directory(request: ProjectRequestView)
    requires
        is_valid_name(request.name),
    ensures
        first_step(request).state == StateView::InspectingDirectory,
        first_step(request).action == (ActionView::InspectDirectory {
            path: request.target_directory,
        }),
{
}

/// A directory that exists and holds an entry that is not repository scaffolding aborts
/// the run with the error that names the directory. Up to then the caller was asked only
/// to inspect it, and afterwards it is asked nothing more: nothing is written.
pub proof fn occupied_directory_is_left_untouched(
    request: ProjectRequestView,
    config: ConfigView,
    children: Seq<Seq<char>>,
    later: Seq<EventView>,
)
    requires
        is_valid_name(request.name),
        !all_allowed(children),
    ensures
        run(request, config, Seq::<EventView>::empty()).action == (ActionView::InspectDirectory {
            path: request.target_directory,
        }),
        run(
            request,
            config,
            seq![EventView::DirectoryInspected { exists: true, children }] + later,
        ) == aborted_step(PipelineErrorView::DirectoryOccupied { path: request.target_directory }),
{
    let listing = seq![EventView::DirectoryInspected { exists: true, children }];
    let occupied = aborted_step(
        PipelineErrorView::DirectoryOccupied { path: request.target_directory },
    );
    assert(children.len() > 0);
    assert(directory_state(true, children) == DirectoryState::Occupied);
    assert(listing.drop_last() =~= Seq::<EventView>::empty());
    assert(run_from(request, config, first_step(request), listing.drop_last()) == first_step(
        request,
    ));
    assert(run(request, config, listing) == occupied);
    runs_compose(request, config, first_step(request), listing, later);
    finished_runs_stay_finished_for_good(request, config, occupied, later);
}

/// A directory that exists and is empty, or holds nothing but repository scaffolding, is
/// used as it is: the step after its inspection asks for the project tree to be written,
/// not for the directory to be created, and no action of the pipeline removes anything.
pub proof fn scaffoldable_directory_is_used_as_found(
    request: ProjectRequestView,
    config: ConfigView,
    children: Seq<Seq<char>>,
)
    requires
        is_valid_name(request.name),
        all_allowed(children),
    ensures
        run(request, config, seq![EventView::DirectoryInspected { exists: true, children }])
            == materialize_step(request),
{
    let listing = seq![EventView::DirectoryInspected { exists: true, children }];
    assert(listing.drop_last() =~= Seq::<EventView>::empty());
    assert(run_from(request, config, first_step(request), listing.drop_last()) == first_step(
        request,
    ));
}

/// A directory that does not exist is created before the project tree is written into it.
pub proof fn absent_directory_is_created(
    request: ProjectRequestView,
    config: ConfigView,
    children: Seq<Seq<char>>,
)
    requires
        is_valid_name(request.name),
    ensures
        run(request, config, seq![EventView::DirectoryInspected { exists: false, children }])
            == (StepView {
            state: StateView::CreatingDirectory,
            action: ActionView::CreateDirectory { path: request.target_directory },
            warning: None,
        }),
        run(
            request,
            config,
            seq![EventView::DirectoryInspected { exists: false, children }, EventView::Completed],
        ) == materialize_step(request),
{
    let listing = seq![EventView::DirectoryInspected { exists: false, children }];
    let both = seq![EventView::DirectoryInspected { exists: false, children }, EventView::Completed];
    assert(listing.drop_last() =~= Seq::<EventView>::empty());
    assert(run_from(request, config, first_step(request), listing.drop_last()) == first_step(
        request,
    ));
    assert(both.drop_last() =~= listing);
}

/// A repository that is already there is left alone: the step after it was found asks for
/// no program to be run in this stage, carries no warning, and goes straight on to what
/// follows version control. So a second run against the same target does not initialise
/// the repository again.
pub proof fn existing_repository_is_left_alone(request: ProjectRequestView, config: ConfigView)
    ensures
        next_step(
            request,
            config,
            StateView::ProbingRepository,
            EventView::RepositoryProbed { exists: true },
        ) == after_version_control(request, config, None),
        !(after_version_control(request, config, None).state is InitializingRepository),
        after_version_control(request, config, None).action != ActionView::Run(
            init_repository_invocation(request.target_directory),
        ),
        after_version_control(request, config, None).warning is None,
{
    reveal_strlit("git");
    reveal_strlit("cargo");
    assert("git"@.len() != "cargo"@.len());
}

/// The repository is initialised only after the caller has reported that there is none:
/// whenever a run asks for the initialising command, the report just before said so.
pub proof fn repository_is_initialized_only_when_absent(
    request: ProjectRequestView,
    config: ConfigView,
    events: Seq<EventView>,
)
    requires
        run(request, config, events).action == ActionView::Run(
            init_repository_invocation(request.target_directory),
        ),
    ensures
        events.len() > 0,
        events.last() == (EventView::RepositoryProbed { exists: false }),
        run(request, config, events.drop_last()).state == StateView::ProbingRepository,
{
    reveal_strlit("git");
    reveal_strlit("cargo");
    assert("git"@.len() != "cargo"@.len());
}

/// In the version-control stage nothing aborts the run: when the caller reports a failure
/// there, the run goes on to what follows, with a warning.
pub proof fn version_control_failure_is_a_warning(
    request: ProjectRequestView,
    config: ConfigView,
    state: StateView,
    event: EventView,
)
    requires
        state is ProbingRepository || state is InitializingRepository,
        reports_failure(event),
        state is ProbingRepository ==> event is Failed,
    ensures
        next_step(request, config, state, event) == after_version_control(
            request,
            config,
            Some(not_initialized(reported_failure(event))),
        ),
        !(next_step(request, config, state, event).state is Aborted),
        next_step(request, config, state, event).warning is Some,
{
}

/// Outside the version-control stage every failure aborts the run, and the error says in
/// which stage it arose. What a failed build wrote to standard error is part of the error,
/// unchanged.
pub proof fn other_failures_abort(
    request: ProjectRequestView,
    config: ConfigView,
    state: StateView,
    event: EventView,
)
    requires
        !(state is ProbingRepository || state is InitializingRepository),
        !(state is Done || state is Aborted),
        reports_failure(event),
    ensures
        next_step(request, config, state, event).state is Aborted,
        next_step(request, config, state, event).action == ActionView::Halt,
        error_stage(next_step(request, config, state, event).state->Aborted_0) == stage_of(state),
        state is VerifyingBuild ==> next_step(request, config, state, event).state
            == StateView::Aborted(
            PipelineErrorView::BuildFailed { failure: reported_failure(event) },
        ),
{
}

/// While the package manager registers one dependency after another, the run asks for
/// them in the configured order.
pub proof fn dependencies_are_added_in_order(
    request: ProjectRequestView,
    config: ConfigView,
    events: Seq<EventView>,
)
    requires
        events.len() <= config.template.dependencies.len(),
        forall|j: int| 0 <= j < events.len() ==> reports_success(#[trigger] events[j]),
    ensures
        run_from(request, config, dependency_step(request, config, 0, None), events)
            == dependency_step(request, config, events.len(), None),
    decreases events.len(),
{
    if events.len() > 0 {
        dependencies_are_added_in_order(request, config, events.drop_last());
        assert(reports_success(events[events.len() - 1]));
    }
}

/// The first dependency that the package manager does not register aborts the run. Up to
/// it the dependencies were asked for in the configured order, each once; the error names
/// the one that failed; and nothing after it is asked for, whatever is reported later.
pub proof fn failed_dependency_stops_the_run(
    request: ProjectRequestView,
    config: ConfigView,
    events: Seq<EventView>,
    failed: int,
)
    requires
        0 <= failed < config.template.dependencies.len(),
        failed < events.len(),
        forall|j: int| 0 <= j < failed ==> reports_success(#[trigger] events[j]),
        reports_failure(events[failed]),
    ensures
        forall|j: int|
            0 <= j <= failed ==> (#[trigger] run_from(
                request,
                config,
                dependency_step(request, config, 0, None),
                events.take(j),
            )).action == ActionView::Run(
                add_dependency_invocation(
                    config.template.dependencies[j],
                    request.target_directory,
                ),
            ),
        forall|j: int|
            failed < j <= events.len() ==> #[trigger] run_from(
                request,
                config,
                dependency_step(request, config, 0, None),
                events.take(j),
            ) == aborted_step(
                PipelineErrorView::DependencyNotAdded {
                    name: config.template.dependencies[failed].name,
                    failure: reported_failure(events[failed]),
                },
            ),
{
    let start = dependency_step(request, config, 0, None);
    let stopped = aborted_step(
        PipelineErrorView::DependencyNotAdded {
            name: config.template.dependencies[failed].name,
            failure: reported_failure(events[failed]),
        },
    );
    assert forall|j: int| 0 <= j <= failed implies (#[trigger] run_from(
        request,
        config,
        start,
        events.take(j),
    )).action == ActionView::Run(
        add_dependency_invocation(config.template.dependencies[j], request.target_directory),
    ) by {
        assert forall|i: int| 0 <= i < events.take(j).len() implies reports_success(
            #[trigger] events.take(j)[i],
        ) by {
            assert(events.take(j)[i] == events[i]);
        }
        dependencies_are_added_in_order(request, config, events.take(j));
    }
    assert forall|i: int| 0 <= i < events.take(failed).len() implies reports_success(
        #[trigger] events.take(failed)[i],
    ) by {
        assert(events.take(failed)[i] == events[i]);
    }
    dependencies_are_added_in_order(request, config, events.take(failed));
    assert(events.take(failed + 1).drop_last() =~= events.take(failed));
    assert(events.take(failed + 1).last() == events[failed]);
    assert(run_from(request, config, start, events.take(failed + 1)) == stopped);
    assert forall|j: int| failed < j <= events.len() implies #[trigger] run_from(
        request,
        config,
        start,
        events.take(j),
    ) == stopped by {
        let rest = events.subrange(failed + 1, j);
        assert(events.take(j) =~= events.take(failed + 1) + rest);
        runs_compose(request, config, start, events.take(failed + 1), rest);
        finished_runs_stay_finished_for_good(request, config, stopped, rest);
    }
}

/// The directory that an action works in, for the actions that work in one.
pub open spec fn action_directory(action: ActionView) -> Option<Seq<char>> {
    match action {
        ActionView::InspectDirectory { path } => Some(path),
        ActionView::CreateDirectory { path } => Some(path),
        ActionView::Materialize { path, .. } => Some(path),
        ActionView::ProbeRepository { path } => Some(path),
        ActionView::Run(invocation) => Some(invocation.working_directory),
        ActionView::Halt => None,
    }
}

/// A run stays in its target directory: whatever it asks for, at any point and after any
/// reports, is to be done there. There is no action that removes anything.
pub proof fn runs_stay_in_the_target_directory(
    request: ProjectRequestView,
    config: ConfigView,
    events: Seq<EventView>,
)
    ensures
        run(request, config, events).action is Halt || action_directory(
            run(request, config, events).action,
        ) == Some(request.target_directory),
{
}

/// The target directory is created only after the caller has reported that nothing exists
/// at its path: a directory that is there is never asked to be made anew.
pub proof fn directory_is_created_only_when_absent(
    request: ProjectRequestView,
    config: ConfigView,
    events: Seq<EventView>,
)
    requires
        run(request, config, events).action is CreateDirectory,
    ensures
        events.len() > 0,
        events.last() matches EventView::DirectoryInspected { exists, .. } && !exists,
        run(request, config, events.drop_last()).state == StateView::InspectingDirectory,
{
}

/// The project tree is written only into a directory that was found empty or holding
/// nothing but repository scaffolding, or that was just created.
pub proof fn tree_is_written_only_into_a_safe_directory(
    request: ProjectRequestView,
    config: ConfigView,
    events: Seq<EventView>,
)
    requires
        run(request, config, events).action is Materialize,
    ensures
        events.len() > 0,
        match events.last() {
            EventView::DirectoryInspected { exists, children } => exists && all_allowed(children),
            EventView::Completed => run(request, config, events.drop_last()).state
                == StateView::CreatingDirectory,
            _ => false,
        },
{
}

/// What the caller reports, in turn, when the target does not exist yet and everything
/// that is asked for works: the directory is found absent, it is created, the project tree
/// is written, no repository is found and one is initialised, each dependency is
/// registered, and the build succeeds. A stage that the run does not have adds nothing.
pub open spec fn smooth_reports(
    request: ProjectRequestView,
    config: ConfigView,
    output: CommandOutputView,
) -> Seq<EventView> {
    seq![
        EventView::DirectoryInspected { exists: false, children: Seq::empty() },
        EventView::Completed,
        EventView::Completed,
    ] + (if wants_version_control(request, config) {
        seq![EventView::RepositoryProbed { exists: false }, EventView::CommandExited(output)]
    } else {
        Seq::empty()
    }) + (if request.skip_dependencies {
        Seq::empty()
    } else {
        Seq::new(config.template.dependencies.len(), |i: int| EventView::CommandExited(output))
    }) + (if request.skip_build_verification {
        Seq::empty()
    } else {
        seq![EventView::CommandExited(output)]
    })
}

/// A run with a valid name in which everything works ends in success, without a warning,
/// whichever of the optional stages it has and whatever the dependencies are.
pub proof fn smooth_run_succeeds(
    request: ProjectRequestView,
    config: ConfigView,
    output: CommandOutputView,
)
    requires
        is_valid_name(request.name),
        output.success,
    ensures
        run(request, config, smooth_reports(request, config, output)) == done_step(None),
{
    let ok = EventView::CommandExited(output);
    let listing = EventView::DirectoryInspected { exists: false, children: Seq::empty() };
    let tree = seq![listing, EventView::Completed, EventView::Completed];
    let repository = if wants_version_control(request, config) {
        seq![EventView::RepositoryProbed { exists: false }, ok]
    } else {
        Seq::empty()
    };
    let dependencies = if request.skip_dependencies {
        Seq::empty()
    } else {
        Seq::new(config.template.dependencies.len(), |i: int| ok)
    };
    let build = if request.skip_build_verification {
        Seq::empty()
    } else {
        seq![ok]
    };
    let start = first_step(request);

    // The directory is created and the tree is written.
    absent_directory_is_created(request, config, Seq::empty());
    assert(tree.drop_last() =~= seq![listing, EventView::Completed]);
    let written = run_from(request, config, start, tree);
    assert(written == after_materializing(request, config));

    // The repository is initialised, where the run has that stage.
    let versioned = run_from(request, config, written, repository);
    assert(versioned == after_version_control(request, config, None)) by {
        if wants_version_control(request, config) {
            let probe = seq![EventView::RepositoryProbed { exists: false }];
            assert(repository.drop_last() =~= probe);
            one_report_is_one_step(
                request,
                config,
                written,
                EventView::RepositoryProbed { exists: false },
            );
        }
    }

    // Each dependency is registered, where the run has that stage.
    let resolved = run_from(request, config, versioned, dependencies);
    assert(resolved == after_dependencies(request, None)) by {
        if !request.skip_dependencies {
            dependencies_are_added_in_order(request, config, dependencies);
        }
    }

    // The build succeeds, where the run has that stage.
    let built = run_from(request, config, resolved, build);
    assert(built == done_step(None)) by {
        if !request.skip_build_verification {
            one_report_is_one_step(request, config, resolved, ok);
        }
    }

    runs_compose(request, config, start, tree, repository);
    runs_compose(request, config, start, tree + repository, dependencies);
    runs_compose(request, config, start, tree + repository + dependencies, build);
}

} // verus!

//! One package's progression from source directory to deployed artifact, as
//! a state machine.
//!
//! The machine only decides.  `next_action` says what outside work is due —
//! run the build tool, copy a file, run the index tool — and the caller
//! performs it and reports what happened as a `PackageEvent`.  `step` then
//! moves the machine forward.  A package always ends `Settled`, with exactly
//! one outcome: deployed, failed to build, or failed to deploy.

use vstd::prelude::*;
use crate::locator::entry_views;
use crate::locator::find;
use crate::locator::find_spec;
use crate::package_manager::BuildError;
use crate::package_manager::BuildErrorModel;
use crate::package_manager::CommandModel;
use crate::package_manager::CommandSpec;
use crate::package_manager::DeployError;
use crate::package_manager::DeployErrorModel;
use crate::package_manager::PackageManager;
use crate::paths::join_path;
use crate::paths::join_spec;
use crate::paths::parent_of;
use crate::paths::parent_spec;

verus! {

/// One package's settled result.  Every package of a run gets exactly one.
#[derive(Debug, PartialEq, Eq)]
pub enum PackageOutcome {
    /// The artifact was built, copied beside the repository, and registered.
    Deployed { artifact: String },
    /// The build step failed; the deploy step was never reached.
    BuildFailed { error: BuildError },
    /// The artifact was built, but deploying it failed.
    DeployFailed { artifact: String, error: DeployError },
}

/// The model of a settled result.
pub enum OutcomeModel {
    Deployed { artifact: Seq<char> },
    BuildFailed { error: BuildErrorModel },
    DeployFailed { artifact: Seq<char>, error: DeployErrorModel },
}

impl View for PackageOutcome {
    type V = OutcomeModel;

    open spec fn view(&self) -> OutcomeModel {
        match self {
            PackageOutcome::Deployed { artifact } => OutcomeModel::Deployed {
                artifact: artifact@,
            },
            PackageOutcome::BuildFailed { error } => OutcomeModel::BuildFailed { error: error@ },
            PackageOutcome::DeployFailed { artifact, error } => OutcomeModel::DeployFailed {
                artifact: artifact@,
                error: error@,
            },
        }
    }
}

/// Where one package stands in its build-then-deploy progression.
#[derive(Debug, PartialEq, Eq)]
pub enum PackageState {
    /// The build tool is to be run in the source directory.
    Building { source: String },
    /// The artifact is to be copied to its destination beside the repository.
    AwaitingCopy { artifact: String, destination: String },
    /// The copy landed; the index tool is to be run on the destination.
    AwaitingIndex { artifact: String, destination: String },
    /// The package is settled; no further action is due.
    Settled { outcome: PackageOutcome },
}

/// The model of a package's state.
pub enum StateModel {
    Building { source: Seq<char> },
    AwaitingCopy { artifact: Seq<char>, destination: Seq<char> },
    AwaitingIndex { artifact: Seq<char>, destination: Seq<char> },
    Settled { outcome: OutcomeModel },
}

impl View for PackageState {
    type V = StateModel;

    open spec fn view(&self) -> StateModel {
        match self {
            PackageState::Building { source } => StateModel::Building { source: source@ },
            PackageState::AwaitingCopy { artifact, destination } => StateModel::AwaitingCopy {
                artifact: artifact@,
                destination: destination@,
            },
            PackageState::AwaitingIndex { artifact, destination } => StateModel::AwaitingIndex {
                artifact: artifact@,
                destination: destination@,
            },
            PackageState::Settled { outcome } => StateModel::Settled { outcome: outcome@ },
        }
    }
}

/// What the caller reports back after performing the due action.
#[derive(Debug)]
pub enum PackageEvent {
    /// The build tool ran: whether it exited successfully, its error text,
    /// and the source directory's entry names afterwards — or the error text
    /// of a listing that itself failed.
    BuildTool { ok: bool, stderr: String, entries: Result<Vec<String>, String> },
    /// The copy ran: whether it succeeded, and the error text if not.
    Copy { ok: bool, error: String },
    /// The index tool ran: whether it exited successfully, and its error
    /// text.
    IndexTool { ok: bool, stderr: String },
}

/// The model of a reported event.
pub enum EventModel {
    BuildTool { ok: bool, stderr: Seq<char>, entries: Result<Seq<Seq<char>>, Seq<char>> },
    Copy { ok: bool, error: Seq<char> },
    IndexTool { ok: bool, stderr: Seq<char> },
}

impl View for PackageEvent {
    type V = EventModel;

    open spec fn view(&self) -> EventModel {
        match self {
            PackageEvent::BuildTool { ok, stderr, entries } => EventModel::BuildTool {
                ok: *ok,
                stderr: stderr@,
                entries: match entries {
                    Ok(names) => Ok(entry_views(names@)),
                    Err(e) => Err(e@),
                },
            },
            PackageEvent::Copy { ok, error } => EventModel::Copy { ok: *ok, error: error@ },
            PackageEvent::IndexTool { ok, stderr } => EventModel::IndexTool {
                ok: *ok,
                stderr: stderr@,
            },
        }
    }
}

/// The outside work a state calls for.
#[derive(Debug)]
pub enum StepAction {
    /// Run the backend's build tool.
    RunBuildTool(CommandSpec),
    /// Copy the artifact to its destination.
    CopyFile { from: String, to: String },
    /// Run the backend's index tool.
    RunIndexTool(CommandSpec),
}

/// The model of a due action.
pub enum ActionModel {
    RunBuildTool(CommandModel),
    CopyFile { from: Seq<char>, to: Seq<char> },
    RunIndexTool(CommandModel),
}

impl View for StepAction {
    type V = ActionModel;

    open spec fn view(&self) -> ActionModel {
        match self {
            StepAction::RunBuildTool(c) => ActionModel::RunBuildTool(c@),
            StepAction::CopyFile { from, to } => ActionModel::CopyFile { from: from@, to: to@ },
            StepAction::RunIndexTool(c) => ActionModel::RunIndexTool(c@),
        }
    }
}

/// How a state moves when an event is reported.  An event that does not
/// belong to the state leaves it unchanged.
pub open spec fn step_model(
    extension: Seq<char>,
    repository: Seq<char>,
    state: StateModel,
    event: EventModel,
) -> StateModel {
    match state {
        StateModel::Building { source } => match event {
            EventModel::BuildTool { ok, stderr, entries } => {
                if !ok {
                    StateModel::Settled {
                        outcome: OutcomeModel::BuildFailed {
                            error: BuildErrorModel::ToolFailure(stderr),
                        },
                    }
                } else {
                    match entries {
                        Err(e) => StateModel::Settled {
                            outcome: OutcomeModel::BuildFailed { error: BuildErrorModel::Io(e) },
                        },
                        Ok(names) => match find_spec(names, extension) {
                            None => StateModel::Settled {
                                outcome: OutcomeModel::BuildFailed {
                                    error: BuildErrorModel::NoArtifact,
                                },
                            },
                            Some(i) => {
                                let artifact = join_spec(source, names[i]);
                                match parent_spec(repository) {
                                    None => StateModel::Settled {
                                        outcome: OutcomeModel::DeployFailed {
                                            artifact,
                                            error: DeployErrorModel::InvalidRepositoryPath(
                                                repository,
                                            ),
                                        },
                                    },
                                    Some(parent) => StateModel::AwaitingCopy {
                                        artifact,
                                        destination: join_spec(parent, names[i]),
                                    },
                                }
                            },
                        },
                    }
                }
            },
            _ => state,
        },
        StateModel::AwaitingCopy { artifact, destination } => match event {
            EventModel::Copy { ok, error } => {
                if ok {
                    StateModel::AwaitingIndex { artifact, destination }
                } else {
                    StateModel::Settled {
                        outcome: OutcomeModel::DeployFailed {
                            artifact,
                            error: DeployErrorModel::CopyFailed(error),
                        },
                    }
                }
            },
            _ => state,
        },
        StateModel::AwaitingIndex { artifact, destination } => match event {
            EventModel::IndexTool { ok, stderr } => {
                if ok {
                    StateModel::Settled { outcome: OutcomeModel::Deployed { artifact } }
                } else {
                    StateModel::Settled {
                        outcome: OutcomeModel::DeployFailed {
                            artifact,
                            error: DeployErrorModel::IndexToolFailure(stderr),
                        },
                    }
                }
            },
            _ => state,
        },
        StateModel::Settled { .. } => state,
    }
}

/// The outside work the state calls for; a settled package calls for none.
pub open spec fn action_model(
    build_program: Seq<char>,
    build_args: Seq<Seq<char>>,
    index_program: Seq<char>,
    repository: Seq<char>,
    state: StateModel,
) -> Option<ActionModel> {
    match state {
        StateModel::Building { source } => Some(
            ActionModel::RunBuildTool(
                CommandModel { program: build_program, args: build_args, working_dir: Some(source) },
            ),
        ),
        StateModel::AwaitingCopy { artifact, destination } => Some(
            ActionModel::CopyFile { from: artifact, to: destination },
        ),
        StateModel::AwaitingIndex { artifact, destination } => Some(
            ActionModel::RunIndexTool(
                CommandModel {
                    program: index_program,
                    args: seq![repository, destination],
                    working_dir: None,
                },
            ),
        ),
        StateModel::Settled { .. } => None,
    }
}

/// The beginning of one package's progression.
pub fn start_package(source: String) -> (r: PackageState)
    ensures
        r@ == (StateModel::Building { source: source@ }),
{
    PackageState::Building { source }
}

/// The outside work due in `state`, planned with the selected backend.
pub fn next_action<PM: PackageManager>(pm: &PM, repository: &String, state: &PackageState) -> (a:
    Option<StepAction>)
    ensures
        (match a {
            Some(act) => Some(act@),
            None => None,
        }) == action_model(
            pm.build_program_spec(),
            pm.build_args_spec(),
            pm.index_program_spec(),
            repository@,
            state@,
        ),
{
    match state {
        PackageState::Building { source } => Some(
            StepAction::RunBuildTool(pm.build_command(source)),
        ),
        PackageState::AwaitingCopy { artifact, destination } => Some(
            StepAction::CopyFile { from: artifact.clone(), to: destination.clone() },
        ),
        PackageState::AwaitingIndex { artifact: _, destination } => Some(
            StepAction::RunIndexTool(pm.index_command(repository, destination)),
        ),
        PackageState::Settled { .. } => None,
    }
}

/// Moves one package forward on what the caller reports.  An event that does
/// not belong to the state leaves the state as it was.
pub fn step<PM: PackageManager>(
    pm: &PM,
    repository: &String,
    state: PackageState,
    event: PackageEvent,
) -> (r: PackageState)
    ensures
        r@ == step_model(pm.extension_spec(), repository@, state@, event@),
{
    match state {
        PackageState::Building { source } => match event {
            PackageEvent::BuildTool { ok, stderr, entries } => {
                if !ok {
                    PackageState::Settled {
                        outcome: PackageOutcome::BuildFailed {
                            error: BuildError::ToolFailure(stderr),
                        },
                    }
                } else {
                    match entries {
                        Err(e) => PackageState::Settled {
                            outcome: PackageOutcome::BuildFailed { error: BuildError::Io(e) },
                        },
                        Ok(names) => {
                            let extension = pm.artifact_extension();
                            match find(&names, extension.as_str()) {
                                None => PackageState::Settled {
                                    outcome: PackageOutcome::BuildFailed {
                                        error: BuildError::NoArtifact,
                                    },
                                },
                                Some(name) => {
                                    let artifact = join_path(source.as_str(), name.as_str());
                                    match parent_of(repository.as_str()) {
                                        None => PackageState::Settled {
                                            outcome: PackageOutcome::DeployFailed {
                                                artifact,
                                                error: DeployError::InvalidRepositoryPath(
                                                    repository.clone(),
                                                ),
                                            },
                                        },
                                        Some(parent) => {
                                            let destination = join_path(
                                                parent.as_str(),
                                                name.as_str(),
                                            );
                                            PackageState::AwaitingCopy { artifact, destination }
                                        },
                                    }
                                },
                            }
                        },
                    }
                }
            },
            _ => PackageState::Building { source },
        },
        PackageState::AwaitingCopy { artifact, destination } => match event {
            PackageEvent::Copy { ok, error } => {
                if ok {
                    PackageState::AwaitingIndex { artifact, destination }
                } else {
                    PackageState::Settled {
                        outcome: PackageOutcome::DeployFailed {
                            artifact,
                            error: DeployError::CopyFailed(error),
                        },
                    }
                }
            },
            _ => PackageState::AwaitingCopy { artifact, destination },
        },
        PackageState::AwaitingIndex { artifact, destination } => match event {
            PackageEvent::IndexTool { ok, stderr } => {
                if ok {
                    PackageState::Settled { outcome: PackageOutcome::Deployed { artifact } }
                } else {
                    PackageState::Settled {
                        outcome: PackageOutcome::DeployFailed {
                            artifact,
                            error: DeployError::IndexToolFailure(stderr),
                        },
                    }
                }
            },
            _ => PackageState::AwaitingIndex { artifact, destination },
        },
        PackageState::Settled { outcome } => PackageState::Settled { outcome },
    }
}

/// Whether an event is the report of the action the state called for.
pub open spec fn event_fits(state: StateModel, event: EventModel) -> bool {
    match (state, event) {
        (StateModel::Building { .. }, EventModel::BuildTool { .. }) => true,
        (StateModel::AwaitingCopy { .. }, EventModel::Copy { .. }) => true,
        (StateModel::AwaitingIndex { .. }, EventModel::IndexTool { .. }) => true,
        _ => false,
    }
}

/// How far a package still is from being settled.
pub open spec fn phase_rank(state: StateModel) -> nat {
    match state {
        StateModel::Building { .. } => 3,
        StateModel::AwaitingCopy { .. } => 2,
        StateModel::AwaitingIndex { .. } => 1,
        StateModel::Settled { .. } => 0,
    }
}

/// A fitting event always moves a package strictly nearer its settled
/// outcome: the pipeline cannot loop, and every package settles after at
/// most three reported events.
pub proof fn lemma_pipeline_progress(
    extension: Seq<char>,
    repository: Seq<char>,
    state: StateModel,
    event: EventModel,
)
    requires
        event_fits(state, event),
    ensures
        phase_rank(step_model(extension, repository, state, event)) < phase_rank(state),
{
}

/// A failed build settles the package at once: whether the tool failed, the
/// listing failed, or no artifact was found, the next state is a build
/// failure, and no deploy step — no copy, no index run — can follow for
/// that package.
pub proof fn lemma_build_failure_gates_deploy(
    extension: Seq<char>,
    repository: Seq<char>,
    source: Seq<char>,
    ok: bool,
    stderr: Seq<char>,
    entries: Result<Seq<Seq<char>>, Seq<char>>,
)
    requires
        !ok || entries is Err || (entries matches Ok(names) && find_spec(names, extension)
            is None),
    ensures
        step_model(
            extension,
            repository,
            StateModel::Building { source },
            EventModel::BuildTool { ok, stderr, entries },
        ) matches StateModel::Settled { outcome } && outcome is BuildFailed,
{
}

/// The deploy step fails with `InvalidRepositoryPath` exactly when the
/// repository path has no parent component to copy the artifact into.
pub proof fn lemma_deploy_needs_repository_parent(
    extension: Seq<char>,
    repository: Seq<char>,
    source: Seq<char>,
    stderr: Seq<char>,
    entries: Seq<Seq<char>>,
)
    requires
        find_spec(entries, extension) is Some,
        parent_spec(repository) is None,
    ensures
        step_model(
            extension,
            repository,
            StateModel::Building { source },
            EventModel::BuildTool { ok: true, stderr, entries: Ok(entries) },
        ) matches StateModel::Settled { outcome } && outcome matches OutcomeModel::DeployFailed {
            artifact,
            error,
        } && error == DeployErrorModel::InvalidRepositoryPath(repository),
{
}

} // verus!

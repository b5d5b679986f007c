//! Spawning a worker, one orchestrator call at a time: register the task
//! definition, run a task from it, report the task that was started.

use crate::ecs::gateway::{
    GatewayRequest, GatewayRequestView, GatewayResponse, GatewayResponseView, UNEXPECTED_REPLY,
};
use crate::ecs::models::{
    task_definition, EcsTaskDefinition, EcsTaskDefinitionView, TaskInfo, TaskInfoView, TaskRequest,
    TaskRequestView,
};
use crate::ecs::normalize::normalize;
use crate::errors::models::{AppError, AppErrorView};
use crate::time::Timestamp;
use crate::view::result_view;
use vstd::prelude::*;

verus! {

/// Where a spawn stands.
#[derive(Debug, PartialEq, Eq)]
pub enum SpawnState {
    /// The definition is being registered. The state keeps where the task
    /// is to run.
    Registering { cluster_name: String, subnet_id: String, security_group_id: String },
    /// The task is being started.
    Starting,
    /// The spawn has reported its result.
    Finished,
}

/// A [`SpawnState`] with its text as sequences of characters.
pub enum SpawnStateView {
    Registering { cluster_name: Seq<char>, subnet_id: Seq<char>, security_group_id: Seq<char> },
    Starting,
    Finished,
}

/// What the caller of a spawn is to do next.
#[derive(Debug, PartialEq, Eq)]
pub enum SpawnStep {
    /// Make this call and hand the reply to the next step.
    Call(GatewayRequest),
    /// The spawn is over, with this result.
    Finish(Result<TaskInfo, AppError>),
}

/// A [`SpawnStep`] with its text as sequences of characters.
pub enum SpawnStepView {
    Call(GatewayRequestView),
    Finish(Result<TaskInfoView, AppErrorView>),
}

impl View for SpawnState {
    type V = SpawnStateView;

    open spec fn view(&self) -> SpawnStateView {
        match self {
            SpawnState::Registering { cluster_name, subnet_id, security_group_id } => {
                SpawnStateView::Registering {
                    cluster_name: cluster_name@,
                    subnet_id: subnet_id@,
                    security_group_id: security_group_id@,
                }
            },
            SpawnState::Starting => SpawnStateView::Starting,
            SpawnState::Finished => SpawnStateView::Finished,
        }
    }
}

impl View for SpawnStep {
    type V = SpawnStepView;

    open spec fn view(&self) -> SpawnStepView {
        match self {
            SpawnStep::Call(request) => SpawnStepView::Call(request@),
            SpawnStep::Finish(result) => SpawnStepView::Finish(result_view(*result)),
        }
    }
}

/// The end of a spawn whose reply does not answer the call it waits for.
pub open spec fn spawn_confused() -> (SpawnStateView, SpawnStepView) {
    (
        SpawnStateView::Finished,
        SpawnStepView::Finish(Err(AppErrorView::InternalServerError(UNEXPECTED_REPLY@))),
    )
}

/// The first step of spawning from a task definition: register it.
pub open spec fn spawn_begin(definition: EcsTaskDefinitionView) -> (SpawnStateView, SpawnStepView) {
    (
        SpawnStateView::Registering {
            cluster_name: definition.cluster_name,
            subnet_id: definition.subnet_id,
            security_group_id: definition.security_group_id,
        },
        SpawnStepView::Call(GatewayRequestView::RegisterDefinition { definition }),
    )
}

/// The first step of spawning for a request: build the task definition and
/// register it. A request that no definition can be built for ends the spawn
/// at once, with no call made.
pub open spec fn spawn_start(request: TaskRequestView) -> (SpawnStateView, SpawnStepView) {
    match task_definition(request) {
        Ok(definition) => spawn_begin(definition),
        Err(error) => (SpawnStateView::Finished, SpawnStepView::Finish(Err(error))),
    }
}

/// The step that follows a reply which arrives at the instant `now`.
///
/// A registered definition is run, in the cluster and on the network that
/// the definition names. Of the tasks that a run started the first is
/// reported; a run that started none is a failure. A failed call ends the
/// spawn with the error of that call.
pub open spec fn spawn_step(state: SpawnStateView, reply: GatewayResponseView, now: int) -> (
    SpawnStateView,
    SpawnStepView,
) {
    match (state, reply) {
        (
            SpawnStateView::Registering { cluster_name, subnet_id, security_group_id },
            GatewayResponseView::DefinitionRegistered { task_definition_arn },
        ) => (
            SpawnStateView::Starting,
            SpawnStepView::Call(
                GatewayRequestView::RunTask {
                    cluster: cluster_name,
                    task_definition_arn,
                    subnet_id,
                    security_group_id,
                },
            ),
        ),
        (SpawnStateView::Registering { .. }, GatewayResponseView::Failed { detail }) => (
            SpawnStateView::Finished,
            SpawnStepView::Finish(Err(AppErrorView::RegisterTaskDefinitionError(detail))),
        ),
        (SpawnStateView::Starting, GatewayResponseView::TasksStarted { tasks }) => (
            SpawnStateView::Finished,
            SpawnStepView::Finish(
                if tasks.len() == 0 {
                    Err(AppErrorView::NoTaskStarted)
                } else {
                    Ok(normalize(tasks[0], now))
                },
            ),
        ),
        (SpawnStateView::Starting, GatewayResponseView::Failed { detail }) => (
            SpawnStateView::Finished,
            SpawnStepView::Finish(Err(AppErrorView::RunTaskError(detail))),
        ),
        _ => spawn_confused(),
    }
}

/// The end of a spawn whose reply does not answer the call it waits for.
fn confused() -> (end: (SpawnState, SpawnStep))
    ensures
        (end.0@, end.1@) == spawn_confused(),
{
    (
        SpawnState::Finished,
        SpawnStep::Finish(Err(AppError::InternalServerError(UNEXPECTED_REPLY.to_string()))),
    )
}

impl SpawnState {
    /// Starts a spawn from a task definition.
    pub fn spawn(task: EcsTaskDefinition) -> (next: (SpawnState, SpawnStep))
        ensures
            (next.0@, next.1@) == spawn_begin(task@),
    {
        let state = SpawnState::Registering {
            cluster_name: task.cluster_name.clone(),
            subnet_id: task.subnet_id.clone(),
            security_group_id: task.security_group_id.clone(),
        };
        (state, SpawnStep::Call(GatewayRequest::RegisterDefinition { definition: task }))
    }

    /// Starts a spawn for a request.
    pub fn start(request: TaskRequest) -> (next: (SpawnState, SpawnStep))
        ensures
            (next.0@, next.1@) == spawn_start(request@),
    {
        match EcsTaskDefinition::new(request) {
            Ok(definition) => SpawnState::spawn(definition),
            Err(error) => (SpawnState::Finished, SpawnStep::Finish(Err(error))),
        }
    }

    /// Takes the reply to the call that the spawn waits for, at the instant
    /// `now`, and says what comes next.
    pub fn step_at(self, reply: GatewayResponse, now: Timestamp) -> (next: (SpawnState, SpawnStep))
        ensures
            (next.0@, next.1@) == spawn_step(self@, reply@, now@),
    {
        match self {
            SpawnState::Registering { cluster_name, subnet_id, security_group_id } => match reply {
                GatewayResponse::DefinitionRegistered { task_definition_arn } => (
                    SpawnState::Starting,
                    SpawnStep::Call(
                        GatewayRequest::RunTask {
                            cluster: cluster_name,
                            task_definition_arn,
                            subnet_id,
                            security_group_id,
                        },
                    ),
                ),
                GatewayResponse::Failed { detail } => (
                    SpawnState::Finished,
                    SpawnStep::Finish(Err(AppError::RegisterTaskDefinitionError(detail))),
                ),
                _ => confused(),
            },
            SpawnState::Starting => match reply {
                GatewayResponse::TasksStarted { tasks } => {
                    if tasks.len() == 0 {
                        (SpawnState::Finished, SpawnStep::Finish(Err(AppError::NoTaskStarted)))
                    } else {
                        let info = TaskInfo::from_at(&tasks[0], now);
                        (SpawnState::Finished, SpawnStep::Finish(Ok(info)))
                    }
                },
                GatewayResponse::Failed { detail } => (
                    SpawnState::Finished,
                    SpawnStep::Finish(Err(AppError::RunTaskError(detail))),
                ),
                _ => confused(),
            },
            SpawnState::Finished => confused(),
        }
    }

    /// Takes the reply to the call that the spawn waits for and says what
    /// comes next. The instant of the reply is read from the system clock.
    pub fn step(self, reply: GatewayResponse) -> (next: (SpawnState, SpawnStep))
        ensures
            exists|now: int|
                0 <= now && (next.0@, next.1@) == #[trigger] spawn_step(self@, reply@, now),
    {
        let now = Timestamp::now();
        self.step_at(reply, now)
    }
}

} // verus!

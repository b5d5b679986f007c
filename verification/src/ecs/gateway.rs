//! The four calls that the service makes to the orchestrator, and what the
//! orchestrator answers. The library names the call; its caller makes it.

use crate::ecs::models::{EcsTaskDefinition, EcsTaskDefinitionView};
use crate::ecs::raw::{RawTask, RawTaskView};
use vstd::prelude::*;

verus! {

/// A call to the orchestrator that the caller is to make next.
#[derive(Debug, PartialEq, Eq)]
pub enum GatewayRequest {
    /// Register the task definition.
    RegisterDefinition { definition: EcsTaskDefinition },
    /// Run one task from a registered definition, in the given cluster and
    /// on the given network.
    RunTask {
        cluster: String,
        task_definition_arn: String,
        subnet_id: String,
        security_group_id: String,
    },
    /// List the ids of the cluster's tasks.
    ListTasks { cluster: String },
    /// Describe the tasks with the given ids, all in one call.
    DescribeTasks { cluster: String, task_arns: Vec<String> },
}

/// A [`GatewayRequest`] with its text as sequences of characters.
pub enum GatewayRequestView {
    RegisterDefinition { definition: EcsTaskDefinitionView },
    RunTask {
        cluster: Seq<char>,
        task_definition_arn: Seq<char>,
        subnet_id: Seq<char>,
        security_group_id: Seq<char>,
    },
    ListTasks { cluster: Seq<char> },
    DescribeTasks { cluster: Seq<char>, task_arns: Seq<Seq<char>> },
}

/// What the orchestrator answered to a call.
#[derive(Debug, PartialEq, Eq)]
pub enum GatewayResponse {
    /// The definition is registered under this id.
    DefinitionRegistered { task_definition_arn: String },
    /// The run request was accepted; these tasks were started.
    TasksStarted { tasks: Vec<RawTask> },
    /// The ids of the cluster's tasks.
    TasksListed { task_arns: Vec<String> },
    /// The records of the tasks that were asked for.
    TasksDescribed { tasks: Vec<RawTask> },
    /// The call failed; the text says how.
    Failed { detail: String },
}

/// A [`GatewayResponse`] with its text as sequences of characters.
pub enum GatewayResponseView {
    DefinitionRegistered { task_definition_arn: Seq<char> },
    TasksStarted { tasks: Seq<RawTaskView> },
    TasksListed { task_arns: Seq<Seq<char>> },
    TasksDescribed { tasks: Seq<RawTaskView> },
    Failed { detail: Seq<char> },
}

impl View for GatewayRequest {
    type V = GatewayRequestView;

    open spec fn view(&self) -> GatewayRequestView {
        match self {
            GatewayRequest::RegisterDefinition { definition } => {
                GatewayRequestView::RegisterDefinition { definition: definition@ }
            },
            GatewayRequest::RunTask {
                cluster,
                task_definition_arn,
                subnet_id,
                security_group_id,
            } => GatewayRequestView::RunTask {
                cluster: cluster@,
                task_definition_arn: task_definition_arn@,
                subnet_id: subnet_id@,
                security_group_id: security_group_id@,
            },
            GatewayRequest::ListTasks { cluster } => GatewayRequestView::ListTasks {
                cluster: cluster@,
            },
            GatewayRequest::DescribeTasks { cluster, task_arns } => {
                GatewayRequestView::DescribeTasks {
                    cluster: cluster@,
                    task_arns: task_arns.deep_view(),
                }
            },
        }
    }
}

impl View for GatewayResponse {
    type V = GatewayResponseView;

    open spec fn view(&self) -> GatewayResponseView {
        match self {
            GatewayResponse::DefinitionRegistered { task_definition_arn } => {
                GatewayResponseView::DefinitionRegistered {
                    task_definition_arn: task_definition_arn@,
                }
            },
            GatewayResponse::TasksStarted { tasks } => GatewayResponseView::TasksStarted {
                tasks: tasks.deep_view(),
            },
            GatewayResponse::TasksListed { task_arns } => GatewayResponseView::TasksListed {
                task_arns: task_arns.deep_view(),
            },
            GatewayResponse::TasksDescribed { tasks } => GatewayResponseView::TasksDescribed {
                tasks: tasks.deep_view(),
            },
            GatewayResponse::Failed { detail } => GatewayResponseView::Failed { detail: detail@ },
        }
    }
}

/// What an operation reports where the reply does not answer the call that
/// it is waiting for.
pub const UNEXPECTED_REPLY: &'static str = "unexpected reply from the orchestrator";

} // verus!

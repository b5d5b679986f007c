//! The requests that come in, the task definition that goes out, and the
//! record of a task that the service answers with.

use crate::ecs::catalog::{catalog_image, resolve_image};
use crate::errors::models::{AppError, AppErrorView};
use crate::time::{Elapsed, Timestamp};
use crate::view::result_view;
use vstd::prelude::*;

verus! {

/// The cluster that tasks run in and that queries look through.
pub const CLUSTER_NAME: &'static str = "default";

/// The private subnet of a task's network interface.
pub const SUBNET_ID: &'static str = "subnet-0c8b6b6b";

/// The security group of a task's network interface.
pub const SECURITY_GROUP_ID: &'static str = "sg-0c8b6b6b";

/// The log group that a worker's output goes to.
pub const LOG_GROUP: &'static str = "/ecs/soi-worker";

/// The role that a worker runs under.
pub const TASK_ROLE_ARN: &'static str = "arn:aws:iam::123456789012:role/ecsTaskExecutionRole";

/// The role that the orchestrator starts a worker with.
pub const EXECUTION_ROLE_ARN: &'static str = "arn:aws:iam::123456789012:role/ecsTaskExecutionRole";

/// The environment variable that tells a worker where its data lies.
pub const DATA_URL_VARIABLE: &'static str = "APP_DATA_URL";

/// The key of the tag that holds the requester's id.
pub const REQUESTER_TAG: &'static str = "soiid";

/// The key of the tag that holds the client's id.
pub const CLIENT_TAG: &'static str = "clientid";

/// The key of the tag that holds the vendor as the worker's type.
pub const WORKER_TYPE_TAG: &'static str = "worker_type";

/// A request to run a vendor's worker on the data at a location.
#[derive(Debug, PartialEq, Eq)]
pub struct TaskRequest {
    /// Where the data lies, as a URI.
    pub data_location: String,
    /// The requester's id.
    pub soiid: String,
    /// The client's id.
    pub clientid: String,
    /// The vendor whose worker is to run.
    pub vendor: String,
}

/// A [`TaskRequest`] with its text as sequences of characters.
pub struct TaskRequestView {
    pub data_location: Seq<char>,
    pub soiid: Seq<char>,
    pub clientid: Seq<char>,
    pub vendor: Seq<char>,
}

/// A query for the tasks of a family: those whose task definition's id
/// holds the family's name.
#[derive(Debug, PartialEq, Eq)]
pub struct TaskFamily {
    pub task_family: String,
}

/// A [`TaskFamily`] with its name as a sequence of characters.
pub struct TaskFamilyView {
    pub task_family: Seq<char>,
}

/// A tag of a task, and a query for the tasks that carry it.
#[derive(Debug, PartialEq, Eq)]
pub struct EcsTag {
    pub key: String,
    pub value: String,
}

/// An [`EcsTag`] with its text as sequences of characters.
pub struct EcsTagView {
    pub key: Seq<char>,
    pub value: Seq<char>,
}

/// An environment variable of a worker's container.
#[derive(Debug, PartialEq, Eq)]
pub struct EcsEnvVar {
    pub name: String,
    pub value: String,
}

/// An [`EcsEnvVar`] with its text as sequences of characters.
pub struct EcsEnvVarView {
    pub name: Seq<char>,
    pub value: Seq<char>,
}

/// All that the orchestrator needs to register and run one worker.
#[derive(Debug, PartialEq, Eq)]
pub struct EcsTaskDefinition {
    pub cluster_name: String,
    pub subnet_id: String,
    pub security_group_id: String,
    pub image: String,
    pub log_group: String,
    pub iam_role_arn: String,
    pub execution_role_arn: String,
    pub tags: Vec<EcsTag>,
    pub env_vars: Vec<EcsEnvVar>,
}

/// An [`EcsTaskDefinition`] with its text as sequences of characters.
pub struct EcsTaskDefinitionView {
    pub cluster_name: Seq<char>,
    pub subnet_id: Seq<char>,
    pub security_group_id: Seq<char>,
    pub image: Seq<char>,
    pub log_group: Seq<char>,
    pub iam_role_arn: Seq<char>,
    pub execution_role_arn: Seq<char>,
    pub tags: Seq<EcsTagView>,
    pub env_vars: Seq<EcsEnvVarView>,
}

/// The record of a task as the service reports it.
#[derive(Debug, PartialEq, Eq)]
pub struct TaskInfo {
    pub task_arn: String,
    pub status: String,
    /// When the task was created; the time of the report where the
    /// orchestrator gave none.
    pub created_at: Timestamp,
    /// How long the task has existed; `None` where the orchestrator gave no
    /// time of creation.
    pub running_duration: Option<Elapsed>,
    pub image: String,
    /// Kept for a reading of the task's processor use. Nothing sets it yet.
    pub cpu_usage: Option<u64>,
    /// Kept for a reading of the task's memory use. Nothing sets it yet.
    pub memory_usage: Option<u64>,
    pub tags: Vec<EcsTag>,
}

/// A [`TaskInfo`] with its text as sequences of characters and its times in
/// nanoseconds.
pub struct TaskInfoView {
    pub task_arn: Seq<char>,
    pub status: Seq<char>,
    pub created_at: int,
    pub running_duration: Option<nat>,
    pub image: Seq<char>,
    pub cpu_usage: Option<u64>,
    pub memory_usage: Option<u64>,
    pub tags: Seq<EcsTagView>,
}

impl View for TaskRequest {
    type V = TaskRequestView;

    open spec fn view(&self) -> TaskRequestView {
        TaskRequestView {
            data_location: self.data_location@,
            soiid: self.soiid@,
            clientid: self.clientid@,
            vendor: self.vendor@,
        }
    }
}

impl View for TaskFamily {
    type V = TaskFamilyView;

    open spec fn view(&self) -> TaskFamilyView {
        TaskFamilyView { task_family: self.task_family@ }
    }
}

impl View for EcsTag {
    type V = EcsTagView;

    open spec fn view(&self) -> EcsTagView {
        EcsTagView { key: self.key@, value: self.value@ }
    }
}

impl DeepView for EcsTag {
    type V = EcsTagView;

    open spec fn deep_view(&self) -> EcsTagView {
        self@
    }
}

impl View for EcsEnvVar {
    type V = EcsEnvVarView;

    open spec fn view(&self) -> EcsEnvVarView {
        EcsEnvVarView { name: self.name@, value: self.value@ }
    }
}

impl DeepView for EcsEnvVar {
    type V = EcsEnvVarView;

    open spec fn deep_view(&self) -> EcsEnvVarView {
        self@
    }
}

impl View for EcsTaskDefinition {
    type V = EcsTaskDefinitionView;

    open spec fn view(&self) -> EcsTaskDefinitionView {
        EcsTaskDefinitionView {
            cluster_name: self.cluster_name@,
            subnet_id: self.subnet_id@,
            security_group_id: self.security_group_id@,
            image: self.image@,
            log_group: self.log_group@,
            iam_role_arn: self.iam_role_arn@,
            execution_role_arn: self.execution_role_arn@,
            tags: self.tags.deep_view(),
            env_vars: self.env_vars.deep_view(),
        }
    }
}

impl DeepView for EcsTaskDefinition {
    type V = EcsTaskDefinitionView;

    open spec fn deep_view(&self) -> EcsTaskDefinitionView {
        self@
    }
}

impl View for TaskInfo {
    type V = TaskInfoView;

    open spec fn view(&self) -> TaskInfoView {
        TaskInfoView {
            task_arn: self.task_arn@,
            status: self.status@,
            created_at: self.created_at@,
            running_duration: match self.running_duration {
                Some(span) => Some(span@),
                None => None,
            },
            image: self.image@,
            cpu_usage: self.cpu_usage,
            memory_usage: self.memory_usage,
            tags: self.tags.deep_view(),
        }
    }
}

impl DeepView for TaskInfo {
    type V = TaskInfoView;

    open spec fn deep_view(&self) -> TaskInfoView {
        self@
    }
}

impl Clone for TaskRequest {
    fn clone(&self) -> (copy: Self)
        ensures
            copy@ == self@,
    {
        TaskRequest {
            data_location: self.data_location.clone(),
            soiid: self.soiid.clone(),
            clientid: self.clientid.clone(),
            vendor: self.vendor.clone(),
        }
    }
}

impl Clone for TaskFamily {
    fn clone(&self) -> (copy: Self)
        ensures
            copy@ == self@,
    {
        TaskFamily { task_family: self.task_family.clone() }
    }
}

impl Clone for EcsTag {
    fn clone(&self) -> (copy: Self)
        ensures
            copy@ == self@,
    {
        EcsTag { key: self.key.clone(), value: self.value.clone() }
    }
}

impl Clone for EcsEnvVar {
    fn clone(&self) -> (copy: Self)
        ensures
            copy@ == self@,
    {
        EcsEnvVar { name: self.name.clone(), value: self.value.clone() }
    }
}

impl Clone for EcsTaskDefinition {
    fn clone(&self) -> (copy: Self)
        ensures
            copy@ == self@,
    {
        EcsTaskDefinition {
            cluster_name: self.cluster_name.clone(),
            subnet_id: self.subnet_id.clone(),
            security_group_id: self.security_group_id.clone(),
            image: self.image.clone(),
            log_group: self.log_group.clone(),
            iam_role_arn: self.iam_role_arn.clone(),
            execution_role_arn: self.execution_role_arn.clone(),
            tags: clone_tags(&self.tags),
            env_vars: clone_env_vars(&self.env_vars),
        }
    }
}

impl Clone for TaskInfo {
    fn clone(&self) -> (copy: Self)
        ensures
            copy@ == self@,
    {
        TaskInfo {
            task_arn: self.task_arn.clone(),
            status: self.status.clone(),
            created_at: self.created_at,
            running_duration: self.running_duration,
            image: self.image.clone(),
            cpu_usage: self.cpu_usage,
            memory_usage: self.memory_usage,
            tags: clone_tags(&self.tags),
        }
    }
}

/// A copy of a list of tags, tag by tag.
fn clone_tags(tags: &Vec<EcsTag>) -> (copy: Vec<EcsTag>)
    ensures
        copy.deep_view() == tags.deep_view(),
{
    let mut copy: Vec<EcsTag> = Vec::new();
    let mut i: usize = 0;
    while i < tags.len()
        invariant
            i <= tags.len(),
            copy.deep_view() == tags.deep_view().take(i as int),
        decreases tags.len() - i,
    {
        let ghost before = copy.deep_view();
        let item = tags[i].clone();
        copy.push(item);
        assert(copy.deep_view() =~= before.push(item@));
        i += 1;
    }
    copy
}

/// A copy of a list of environment variables, variable by variable.
fn clone_env_vars(env_vars: &Vec<EcsEnvVar>) -> (copy: Vec<EcsEnvVar>)
    ensures
        copy.deep_view() == env_vars.deep_view(),
{
    let mut copy: Vec<EcsEnvVar> = Vec::new();
    let mut i: usize = 0;
    while i < env_vars.len()
        invariant
            i <= env_vars.len(),
            copy.deep_view() == env_vars.deep_view().take(i as int),
        decreases env_vars.len() - i,
    {
        let ghost before = copy.deep_view();
        let item = env_vars[i].clone();
        copy.push(item);
        assert(copy.deep_view() =~= before.push(item@));
        i += 1;
    }
    copy
}

/// The task definition that a request calls for: the vendor's image from the
/// catalog, the deployment's cluster, network, roles and log group, the
/// data's location as the one environment variable, and three tags in the
/// order requester, client, vendor. A vendor that the catalog does not hold
/// is refused.
pub open spec fn task_definition(request: TaskRequestView) -> Result<
    EcsTaskDefinitionView,
    AppErrorView,
> {
    match catalog_image(request.vendor) {
        Some(image) => Ok(
            EcsTaskDefinitionView {
                cluster_name: CLUSTER_NAME@,
                subnet_id: SUBNET_ID@,
                security_group_id: SECURITY_GROUP_ID@,
                image,
                log_group: LOG_GROUP@,
                iam_role_arn: TASK_ROLE_ARN@,
                execution_role_arn: EXECUTION_ROLE_ARN@,
                tags: seq![
                    EcsTagView { key: REQUESTER_TAG@, value: request.soiid },
                    EcsTagView { key: CLIENT_TAG@, value: request.clientid },
                    EcsTagView { key: WORKER_TYPE_TAG@, value: request.vendor },
                ],
                env_vars: seq![
                    EcsEnvVarView { name: DATA_URL_VARIABLE@, value: request.data_location },
                ],
            },
        ),
        None => Err(AppErrorView::UnsupportedVendor(request.vendor)),
    }
}

impl EcsTaskDefinition {
    /// Builds the task definition for a request. Fails, before anything is
    /// built, for a vendor that the catalog does not hold.
    pub fn new(tr: TaskRequest) -> (built: Result<Self, AppError>)
        ensures
            result_view(built) == task_definition(tr@),
    {
        let image = match resolve_image(&tr.vendor) {
            Ok(image) => image,
            Err(error) => {
                return Err(error);
            },
        };

        let mut tags: Vec<EcsTag> = Vec::new();
        tags.push(EcsTag { key: REQUESTER_TAG.to_string(), value: tr.soiid });
        tags.push(EcsTag { key: CLIENT_TAG.to_string(), value: tr.clientid });
        tags.push(EcsTag { key: WORKER_TYPE_TAG.to_string(), value: tr.vendor });

        let mut env_vars: Vec<EcsEnvVar> = Vec::new();
        env_vars.push(EcsEnvVar { name: DATA_URL_VARIABLE.to_string(), value: tr.data_location });

        let definition = EcsTaskDefinition {
            cluster_name: CLUSTER_NAME.to_string(),
            subnet_id: SUBNET_ID.to_string(),
            security_group_id: SECURITY_GROUP_ID.to_string(),
            image,
            log_group: LOG_GROUP.to_string(),
            iam_role_arn: TASK_ROLE_ARN.to_string(),
            execution_role_arn: EXECUTION_ROLE_ARN.to_string(),
            tags,
            env_vars,
        };
        proof {
            let wanted = task_definition(tr@)->Ok_0;
            assert(definition@.tags =~= wanted.tags);
            assert(definition@.env_vars =~= wanted.env_vars);
        }
        Ok(definition)
    }
}

} // verus!

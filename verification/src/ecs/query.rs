//! Looking tasks up, one orchestrator call at a time: list the cluster's
//! tasks, describe them all at once, keep those that the query asks for.

use crate::ecs::gateway::{
    GatewayRequest, GatewayRequestView, GatewayResponse, GatewayResponseView, UNEXPECTED_REPLY,
};
use crate::ecs::models::{
    EcsTag, EcsTagView, TaskFamily, TaskFamilyView, TaskInfo, TaskInfoView, CLUSTER_NAME,
};
use crate::ecs::normalize::{normalize, normalize_tag, normalize_tags};
use crate::ecs::raw::{RawTag, RawTask, RawTaskView};
use crate::errors::models::{AppError, AppErrorView};
use crate::text::{occurs_in, str_contains};
use crate::time::Timestamp;
use crate::view::{result_view, text_or_empty};
use vstd::prelude::*;
use vstd::string::StringExecFns;

verus! {

/// What a query asks for.
#[derive(Debug, PartialEq, Eq)]
pub enum TaskFilter {
    /// The tasks of a family.
    Family(TaskFamily),
    /// The tasks that carry a tag.
    Tag(EcsTag),
}

/// A [`TaskFilter`] with its text as sequences of characters.
pub enum TaskFilterView {
    Family(TaskFamilyView),
    Tag(EcsTagView),
}

/// Where a query stands.
#[derive(Debug, PartialEq, Eq)]
pub enum QueryState {
    /// The cluster's tasks are being listed.
    Listing(TaskFilter),
    /// The listed tasks are being described.
    Describing(TaskFilter),
    /// The query has reported its result.
    Finished,
}

/// A [`QueryState`] with its text as sequences of characters.
pub enum QueryStateView {
    Listing(TaskFilterView),
    Describing(TaskFilterView),
    Finished,
}

/// What the caller of a query is to do next.
#[derive(Debug, PartialEq, Eq)]
pub enum QueryStep {
    /// Make this call and hand the reply to the next step.
    Call(GatewayRequest),
    /// The query is over, with this result.
    Finish(Result<Vec<TaskInfo>, AppError>),
}

/// A [`QueryStep`] with its text as sequences of characters.
pub enum QueryStepView {
    Call(GatewayRequestView),
    Finish(Result<Seq<TaskInfoView>, AppErrorView>),
}

impl View for TaskFilter {
    type V = TaskFilterView;

    open spec fn view(&self) -> TaskFilterView {
        match self {
            TaskFilter::Family(family) => TaskFilterView::Family(family@),
            TaskFilter::Tag(tag) => TaskFilterView::Tag(tag@),
        }
    }
}

impl View for QueryState {
    type V = QueryStateView;

    open spec fn view(&self) -> QueryStateView {
        match self {
            QueryState::Listing(filter) => QueryStateView::Listing(filter@),
            QueryState::Describing(filter) => QueryStateView::Describing(filter@),
            QueryState::Finished => QueryStateView::Finished,
        }
    }
}

impl View for QueryStep {
    type V = QueryStepView;

    open spec fn view(&self) -> QueryStepView {
        match self {
            QueryStep::Call(request) => QueryStepView::Call(request@),
            QueryStep::Finish(result) => QueryStepView::Finish(result_view(*result)),
        }
    }
}

/// What a family query reports where the cluster lists no task.
pub const NO_TASKS_IN_CLUSTER: &'static str = "no tasks in cluster";

/// How the report of a tag query begins where the cluster lists no task.
pub const NO_TASKS_WITH_TAG: &'static str = "no tasks with tag ";

/// What stands between key and value where a tag is written out.
pub const TAG_SEPARATOR: &'static str = "=";

/// The task belongs to the family: it has a task definition, and the
/// family's name occurs in that definition's id.
pub open spec fn in_family(task: RawTaskView, family: Seq<char>) -> bool {
    task.task_definition_arn matches Some(arn) && occurs_in(family, arn)
}

/// The task carries the tag: one of its tags, as the service reports them,
/// has that very key and that very value.
pub open spec fn has_tag(task: RawTaskView, tag: EcsTagView) -> bool {
    normalize_tags(task.tags).contains(tag)
}

/// The filter keeps the task.
pub open spec fn keeps(filter: TaskFilterView, task: RawTaskView) -> bool {
    match filter {
        TaskFilterView::Family(family) => in_family(task, family.task_family),
        TaskFilterView::Tag(tag) => has_tag(task, tag),
    }
}

/// The tasks that the filter keeps, in the order in which they were given.
pub open spec fn kept(filter: TaskFilterView, tasks: Seq<RawTaskView>) -> Seq<RawTaskView> {
    tasks.filter(|task: RawTaskView| keeps(filter, task))
}

/// The records of the tasks that the filter keeps, made at the instant
/// `now`, in the order in which the tasks were given.
pub open spec fn report(filter: TaskFilterView, tasks: Seq<RawTaskView>, now: int) -> Seq<
    TaskInfoView,
> {
    kept(filter, tasks).map_values(|task: RawTaskView| normalize(task, now))
}

/// What a query says where the cluster lists no task at all.
pub open spec fn nothing_listed(filter: TaskFilterView) -> Seq<char> {
    match filter {
        TaskFilterView::Family(_) => NO_TASKS_IN_CLUSTER@,
        TaskFilterView::Tag(tag) => NO_TASKS_WITH_TAG@ + tag.key + TAG_SEPARATOR@ + tag.value,
    }
}

/// The end of a query whose reply does not answer the call it waits for.
pub open spec fn query_confused() -> (QueryStateView, QueryStepView) {
    (
        QueryStateView::Finished,
        QueryStepView::Finish(Err(AppErrorView::InternalServerError(UNEXPECTED_REPLY@))),
    )
}

/// The first step of a query: list the tasks of the cluster.
pub open spec fn query_start(filter: TaskFilterView) -> (QueryStateView, QueryStepView) {
    (
        QueryStateView::Listing(filter),
        QueryStepView::Call(GatewayRequestView::ListTasks { cluster: CLUSTER_NAME@ }),
    )
}

/// The step that follows a reply which arrives at the instant `now`.
///
/// An empty listing ends the query: nothing is found. Any other listing is
/// described in one call. Of the described tasks those that the filter keeps
/// are reported, which may be none. A failed call ends the query with the
/// error of that call.
pub open spec fn query_step(state: QueryStateView, reply: GatewayResponseView, now: int) -> (
    QueryStateView,
    QueryStepView,
) {
    match (state, reply) {
        (QueryStateView::Listing(filter), GatewayResponseView::TasksListed { task_arns }) => {
            if task_arns.len() == 0 {
                (
                    QueryStateView::Finished,
                    QueryStepView::Finish(Err(AppErrorView::NotFoundError(nothing_listed(filter)))),
                )
            } else {
                (
                    QueryStateView::Describing(filter),
                    QueryStepView::Call(
                        GatewayRequestView::DescribeTasks { cluster: CLUSTER_NAME@, task_arns },
                    ),
                )
            }
        },
        (QueryStateView::Listing(_), GatewayResponseView::Failed { detail }) => (
            QueryStateView::Finished,
            QueryStepView::Finish(Err(AppErrorView::ListTasksError(detail))),
        ),
        (QueryStateView::Describing(filter), GatewayResponseView::TasksDescribed { tasks }) => (
            QueryStateView::Finished,
            QueryStepView::Finish(Ok(report(filter, tasks, now))),
        ),
        (QueryStateView::Describing(_), GatewayResponseView::Failed { detail }) => (
            QueryStateView::Finished,
            QueryStepView::Finish(Err(AppErrorView::DescribeTaskError(detail))),
        ),
        _ => query_confused(),
    }
}

/// One more task at the end is kept or dropped by itself: what was kept of
/// the tasks before it stays as it is.
pub proof fn kept_grows_at_the_end(
    filter: TaskFilterView,
    tasks: Seq<RawTaskView>,
    task: RawTaskView,
)
    ensures
        kept(filter, tasks.push(task)) == if keeps(filter, task) {
            kept(filter, tasks).push(task)
        } else {
            kept(filter, tasks)
        },
{
    reveal(Seq::filter);
    assert(tasks.push(task).drop_last() =~= tasks);
}

/// The optional text, with nothing read as the empty text, is `wanted`.
fn text_is(text: &Option<String>, wanted: &String) -> (same: bool)
    ensures
        same == (text_or_empty(text.deep_view()) == wanted@),
{
    match text {
        Some(text) => *text == *wanted,
        None => {
            let empty = wanted.as_str().is_empty();
            assert(empty == (wanted@ =~= Seq::<char>::empty()));
            empty
        },
    }
}

/// One of the tags is `wanted`.
fn carries(tags: &Vec<RawTag>, wanted: &EcsTag) -> (found: bool)
    ensures
        found == normalize_tags(tags.deep_view()).contains(wanted@),
{
    let ghost reported = normalize_tags(tags.deep_view());
    let mut i: usize = 0;
    while i < tags.len()
        invariant
            i <= tags.len(),
            reported == normalize_tags(tags.deep_view()),
            forall|j: int| 0 <= j < i ==> reported[j] != wanted@,
        decreases tags.len() - i,
    {
        assert(reported[i as int] == normalize_tag(tags[i as int]@));
        if text_is(&tags[i].key, &wanted.key) && text_is(&tags[i].value, &wanted.value) {
            return true;
        }
        i += 1;
    }
    false
}

/// The filter keeps the task.
fn is_kept(filter: &TaskFilter, task: &RawTask) -> (kept: bool)
    ensures
        kept == keeps(filter@, task@),
{
    match filter {
        TaskFilter::Family(family) => match &task.task_definition_arn {
            Some(arn) => str_contains(arn.as_str(), family.task_family.as_str()),
            None => false,
        },
        TaskFilter::Tag(tag) => carries(&task.tags, tag),
    }
}

/// The records of the tasks that the filter keeps.
fn report_kept(filter: &TaskFilter, tasks: &Vec<RawTask>, now: Timestamp) -> (found: Vec<TaskInfo>)
    ensures
        found.deep_view() == report(filter@, tasks.deep_view(), now@),
{
    let mut found: Vec<TaskInfo> = Vec::new();
    let mut i: usize = 0;
    proof {
        reveal(Seq::filter);
    }
    while i < tasks.len()
        invariant
            i <= tasks.len(),
            found.deep_view() == report(filter@, tasks.deep_view().take(i as int), now@),
        decreases tasks.len() - i,
    {
        let ghost before = found.deep_view();
        let ghost seen = tasks.deep_view().take(i as int);
        proof {
            kept_grows_at_the_end(filter@, seen, tasks[i as int]@);
            assert(seen.push(tasks[i as int]@) =~= tasks.deep_view().take(i + 1));
        }
        if is_kept(filter, &tasks[i]) {
            let info = TaskInfo::from_at(&tasks[i], now);
            found.push(info);
            assert(found.deep_view() =~= before.push(info@));
        }
        i += 1;
    }
    assert(tasks.deep_view().take(i as int) =~= tasks.deep_view());
    found
}

/// What a query says where the cluster lists no task at all.
fn nothing_listed_detail(filter: &TaskFilter) -> (detail: String)
    ensures
        detail@ == nothing_listed(filter@),
{
    match filter {
        TaskFilter::Family(_) => NO_TASKS_IN_CLUSTER.to_string(),
        TaskFilter::Tag(tag) => {
            let mut detail = NO_TASKS_WITH_TAG.to_string();
            detail.append(tag.key.as_str());
            detail.append(TAG_SEPARATOR);
            detail.append(tag.value.as_str());
            detail
        },
    }
}

/// The end of a query whose reply does not answer the call it waits for.
fn confused() -> (end: (QueryState, QueryStep))
    ensures
        (end.0@, end.1@) == query_confused(),
{
    (
        QueryState::Finished,
        QueryStep::Finish(Err(AppError::InternalServerError(UNEXPECTED_REPLY.to_string()))),
    )
}

impl QueryState {
    /// Starts a query.
    pub fn start(filter: TaskFilter) -> (next: (QueryState, QueryStep))
        ensures
            (next.0@, next.1@) == query_start(filter@),
    {
        (
            QueryState::Listing(filter),
            QueryStep::Call(GatewayRequest::ListTasks { cluster: CLUSTER_NAME.to_string() }),
        )
    }

    /// Starts a query for the tasks of a family.
    pub fn get_task_family(task_family: TaskFamily) -> (next: (QueryState, QueryStep))
        ensures
            (next.0@, next.1@) == query_start(TaskFilterView::Family(task_family@)),
    {
        QueryState::start(TaskFilter::Family(task_family))
    }

    /// Starts a query for the tasks that carry a tag.
    pub fn get_tasks(tag: EcsTag) -> (next: (QueryState, QueryStep))
        ensures
            (next.0@, next.1@) == query_start(TaskFilterView::Tag(tag@)),
    {
        QueryState::start(TaskFilter::Tag(tag))
    }

    /// Takes the reply to the call that the query waits for, at the instant
    /// `now`, and says what comes next.
    pub fn step_at(self, reply: GatewayResponse, now: Timestamp) -> (next: (QueryState, QueryStep))
        ensures
            (next.0@, next.1@) == query_step(self@, reply@, now@),
    {
        match self {
            QueryState::Listing(filter) => match reply {
                GatewayResponse::TasksListed { task_arns } => {
                    if task_arns.len() == 0 {
                        let detail = nothing_listed_detail(&filter);
                        (
                            QueryState::Finished,
                            QueryStep::Finish(Err(AppError::NotFoundError(detail))),
                        )
                    } else {
                        (
                            QueryState::Describing(filter),
                            QueryStep::Call(
                                GatewayRequest::DescribeTasks {
                                    cluster: CLUSTER_NAME.to_string(),
                                    task_arns,
                                },
                            ),
                        )
                    }
                },
                GatewayResponse::Failed { detail } => (
                    QueryState::Finished,
                    QueryStep::Finish(Err(AppError::ListTasksError(detail))),
                ),
                _ => confused(),
            },
            QueryState::Describing(filter) => match reply {
                GatewayResponse::TasksDescribed { tasks } => {
                    let found = report_kept(&filter, &tasks, now);
                    (QueryState::Finished, QueryStep::Finish(Ok(found)))
                },
                GatewayResponse::Failed { detail } => (
                    QueryState::Finished,
                    QueryStep::Finish(Err(AppError::DescribeTaskError(detail))),
                ),
                _ => confused(),
            },
            QueryState::Finished => confused(),
        }
    }

    /// Takes the reply to the call that the query waits for and says what
    /// comes next. The instant of the reply is read from the system clock.
    pub fn step(self, reply: GatewayResponse) -> (next: (QueryState, QueryStep))
        ensures
            exists|now: int|
                0 <= now && (next.0@, next.1@) == #[trigger] query_step(self@, reply@, now),
    {
        let now = Timestamp::now();
        self.step_at(reply, now)
    }
}

} // verus!

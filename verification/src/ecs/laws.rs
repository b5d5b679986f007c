//! What holds of the builder, the normalizer and the two operations, for
//! every input.

use crate::ecs::catalog::catalog_image;
use crate::ecs::gateway::{GatewayRequestView, GatewayResponseView};
use crate::ecs::models::{
    task_definition, EcsEnvVarView, EcsTagView, EcsTaskDefinitionView, TaskFamilyView,
    TaskInfoView, TaskRequestView, CLIENT_TAG, CLUSTER_NAME, DATA_URL_VARIABLE, REQUESTER_TAG,
    SECURITY_GROUP_ID, SUBNET_ID, WORKER_TYPE_TAG,
};
use crate::ecs::normalize::{normalize, normalize_tags};
use crate::ecs::query::{
    has_tag, in_family, kept, keeps, kept_grows_at_the_end, nothing_listed, query_start,
    query_step, report, QueryStateView, QueryStepView, TaskFilterView,
};
use crate::ecs::raw::RawTaskView;
use crate::ecs::spawn::{spawn_start, spawn_step, SpawnStateView, SpawnStepView};
use crate::errors::models::AppErrorView;
use crate::time::elapsed_between;
use crate::view::text_or_empty;
use vstd::prelude::*;

verus! {

/// The catalog decides: a request for a vendor that it holds gets that
/// vendor's image, and a request for any other vendor is refused with the
/// vendor's name. A refused request ends its spawn before any call to the
/// orchestrator.
pub proof fn catalog_decides_the_image(request: TaskRequestView)
    ensures
        catalog_image(request.vendor) matches Some(image) ==> task_definition(request) is Ok
            && task_definition(request)->Ok_0.image == image,
        catalog_image(request.vendor) is None ==> task_definition(request) == Err::<
            EcsTaskDefinitionView,
            AppErrorView,
        >(AppErrorView::UnsupportedVendor(request.vendor)),
        catalog_image(request.vendor) is None ==> spawn_start(request) == (
            SpawnStateView::Finished,
            SpawnStepView::Finish(Err(AppErrorView::UnsupportedVendor(request.vendor))),
        ),
        catalog_image(request.vendor) is Some ==> spawn_start(request).1 == SpawnStepView::Call(
            GatewayRequestView::RegisterDefinition {
                definition: task_definition(request)->Ok_0,
            },
        ),
{
}

/// A task definition carries three tags, in this order: the requester's id,
/// the client's id, the vendor as the worker's type. Their keys differ from
/// one another. Its one environment variable is the data's location.
pub proof fn definition_is_tagged_in_order(request: TaskRequestView)
    requires
        catalog_image(request.vendor) is Some,
    ensures
        task_definition(request) is Ok,
        task_definition(request)->Ok_0.tags == seq![
            EcsTagView { key: REQUESTER_TAG@, value: request.soiid },
            EcsTagView { key: CLIENT_TAG@, value: request.clientid },
            EcsTagView { key: WORKER_TYPE_TAG@, value: request.vendor },
        ],
        task_definition(request)->Ok_0.env_vars == seq![
            EcsEnvVarView { name: DATA_URL_VARIABLE@, value: request.data_location },
        ],
        REQUESTER_TAG@ != CLIENT_TAG@,
        REQUESTER_TAG@ != WORKER_TYPE_TAG@,
        CLIENT_TAG@ != WORKER_TYPE_TAG@,
{
    reveal_strlit("soiid");
    reveal_strlit("clientid");
    reveal_strlit("worker_type");
    assert(REQUESTER_TAG@.len() == 5);
    assert(CLIENT_TAG@.len() == 8);
    assert(WORKER_TYPE_TAG@.len() == 11);
}

/// Two records of one reported task, made at two instants of which the
/// second is not the earlier, differ at most in their dates and ages.
/// Where the orchestrator reported the time of creation the dates agree
/// too, and the age does not shrink. Where it reported none, each record
/// is dated by its own instant and neither has an age.
pub proof fn normalizing_again_changes_only_the_age(task: RawTaskView, first: int, second: int)
    requires
        first <= second,
    ensures
        normalize(task, second) == (TaskInfoView {
            created_at: normalize(task, second).created_at,
            running_duration: normalize(task, second).running_duration,
            ..normalize(task, first)
        }),
        task.created_at is Some ==> normalize(task, second).created_at == normalize(
            task,
            first,
        ).created_at,
        task.created_at is Some ==> normalize(task, first).running_duration is Some && normalize(
            task,
            second,
        ).running_duration is Some && normalize(task, first).running_duration->0 <= normalize(
            task,
            second,
        ).running_duration->0,
        task.created_at is None ==> normalize(task, first).running_duration is None && normalize(
            task,
            second,
        ).running_duration is None,
{
}

/// A record has an age exactly where the orchestrator reported the time of
/// creation. The record is then dated by that very time, and its age is the
/// time from then to the instant of the record: their difference where the
/// instant is the later, zero otherwise. A record without an age is dated
/// by its own instant.
pub proof fn age_is_measured_from_creation(task: RawTaskView, now: int)
    ensures
        normalize(task, now).running_duration is Some <==> task.created_at is Some,
        task.created_at matches Some(at) ==> normalize(task, now).created_at == at && normalize(
            task,
            now,
        ).running_duration == Some(elapsed_between(at, now)),
        task.created_at matches Some(at) ==> (at <= now ==> normalize(task, now).running_duration
            == Some((now - at) as nat)),
        task.created_at matches Some(at) ==> (now < at ==> normalize(task, now).running_duration
            == Some(0nat)),
        task.created_at is None ==> normalize(task, now).created_at == now,
        normalize(task, now).cpu_usage is None,
        normalize(task, now).memory_usage is None,
{
}

/// A query, from its first step to its last: the cluster lists
/// `task_arns`, and where the query then asks for them, the orchestrator
/// describes `tasks`. Both replies arrive at the instant `now`.
pub open spec fn query_run(
    filter: TaskFilterView,
    task_arns: Seq<Seq<char>>,
    tasks: Seq<RawTaskView>,
    now: int,
) -> QueryStepView {
    let listed = query_step(
        query_start(filter).0,
        GatewayResponseView::TasksListed { task_arns },
        now,
    );
    match listed.1 {
        QueryStepView::Call(_) => query_step(
            listed.0,
            GatewayResponseView::TasksDescribed { tasks },
            now,
        ).1,
        QueryStepView::Finish(_) => listed.1,
    }
}

/// A query makes one call to list the cluster's tasks and at most one to
/// describe them, which asks for every listed task. Only an empty listing
/// is reported as nothing found; after any other listing the query reports
/// what the filter keeps of the described tasks.
pub proof fn query_lists_once_and_describes_once(
    filter: TaskFilterView,
    task_arns: Seq<Seq<char>>,
    tasks: Seq<RawTaskView>,
    now: int,
)
    ensures
        query_start(filter) == (
            QueryStateView::Listing(filter),
            QueryStepView::Call(GatewayRequestView::ListTasks { cluster: CLUSTER_NAME@ }),
        ),
        task_arns.len() == 0 ==> query_run(filter, task_arns, tasks, now) == QueryStepView::Finish(
            Err(AppErrorView::NotFoundError(nothing_listed(filter))),
        ),
        task_arns.len() > 0 ==> query_step(
            query_start(filter).0,
            GatewayResponseView::TasksListed { task_arns },
            now,
        ) == (
            QueryStateView::Describing(filter),
            QueryStepView::Call(
                GatewayRequestView::DescribeTasks { cluster: CLUSTER_NAME@, task_arns },
            ),
        ),
        task_arns.len() > 0 ==> query_run(filter, task_arns, tasks, now) == QueryStepView::Finish(
            Ok(report(filter, tasks, now)),
        ),
{
}

/// No step of a query leads back: a step that asks for a call is the step
/// from listing to describing, and every other step ends the query.
pub proof fn query_never_repeats_a_call(
    state: QueryStateView,
    reply: GatewayResponseView,
    now: int,
)
    ensures
        !(query_step(state, reply, now).0 is Listing),
        query_step(state, reply, now).1 is Call ==> state is Listing && query_step(
            state,
            reply,
            now,
        ).0 is Describing && query_step(state, reply, now).1->Call_0 is DescribeTasks,
        query_step(state, reply, now).1 is Finish <==> query_step(state, reply, now).0 is Finished,
{
}

/// A spawn, from its first step to its last: the orchestrator registers
/// the definition under `task_definition_arn` and then starts `tasks`. Both
/// replies arrive at the instant `now`.
pub open spec fn spawn_run(
    request: TaskRequestView,
    task_definition_arn: Seq<char>,
    tasks: Seq<RawTaskView>,
    now: int,
) -> SpawnStepView {
    let registered = spawn_step(
        spawn_start(request).0,
        GatewayResponseView::DefinitionRegistered { task_definition_arn },
        now,
    );
    match spawn_start(request).1 {
        SpawnStepView::Call(_) => spawn_step(
            registered.0,
            GatewayResponseView::TasksStarted { tasks },
            now,
        ).1,
        SpawnStepView::Finish(_) => spawn_start(request).1,
    }
}

/// A spawn for a vendor of the catalog registers the definition that the
/// request calls for, runs the registered definition in the definition's
/// cluster and on its network, and reports the first task that was
/// started. Where none was started it fails, and says so.
pub proof fn spawn_reports_the_first_task(
    request: TaskRequestView,
    task_definition_arn: Seq<char>,
    tasks: Seq<RawTaskView>,
    now: int,
)
    requires
        catalog_image(request.vendor) is Some,
    ensures
        spawn_start(request).1 == SpawnStepView::Call(
            GatewayRequestView::RegisterDefinition {
                definition: task_definition(request)->Ok_0,
            },
        ),
        spawn_step(
            spawn_start(request).0,
            GatewayResponseView::DefinitionRegistered { task_definition_arn },
            now,
        ) == (
            SpawnStateView::Starting,
            SpawnStepView::Call(
                GatewayRequestView::RunTask {
                    cluster: CLUSTER_NAME@,
                    task_definition_arn,
                    subnet_id: SUBNET_ID@,
                    security_group_id: SECURITY_GROUP_ID@,
                },
            ),
        ),
        tasks.len() == 0 ==> spawn_run(request, task_definition_arn, tasks, now)
            == SpawnStepView::Finish(Err(AppErrorView::NoTaskStarted)),
        tasks.len() > 0 ==> spawn_run(request, task_definition_arn, tasks, now)
            == SpawnStepView::Finish(Ok(normalize(tasks[0], now))),
{
}

/// No step of a spawn leads back: a step that asks for a call is the step
/// from registering to starting, and every other step ends the spawn.
pub proof fn spawn_never_repeats_a_call(
    state: SpawnStateView,
    reply: GatewayResponseView,
    now: int,
)
    ensures
        !(spawn_step(state, reply, now).0 is Registering),
        spawn_step(state, reply, now).1 is Call ==> state is Registering && spawn_step(
            state,
            reply,
            now,
        ).0 is Starting && spawn_step(state, reply, now).1->Call_0 is RunTask,
        spawn_step(state, reply, now).1 is Finish <==> spawn_step(state, reply, now).0 is Finished,
{
}

/// A failed call ends its operation at once, with the error of that call
/// and the orchestrator's words unchanged. Nothing is tried again and no
/// further call is made.
pub proof fn failed_call_ends_the_operation(
    spawn: SpawnStateView,
    query: QueryStateView,
    detail: Seq<char>,
    now: int,
)
    ensures
        spawn is Registering ==> spawn_step(spawn, GatewayResponseView::Failed { detail }, now)
            == (
            SpawnStateView::Finished,
            SpawnStepView::Finish(Err(AppErrorView::RegisterTaskDefinitionError(detail))),
        ),
        spawn is Starting ==> spawn_step(spawn, GatewayResponseView::Failed { detail }, now) == (
            SpawnStateView::Finished,
            SpawnStepView::Finish(Err(AppErrorView::RunTaskError(detail))),
        ),
        query is Listing ==> query_step(query, GatewayResponseView::Failed { detail }, now) == (
            QueryStateView::Finished,
            QueryStepView::Finish(Err(AppErrorView::ListTasksError(detail))),
        ),
        query is Describing ==> query_step(query, GatewayResponseView::Failed { detail }, now) == (
            QueryStateView::Finished,
            QueryStepView::Finish(Err(AppErrorView::DescribeTaskError(detail))),
        ),
{
}

/// Every record that a query reports is the record of a described task
/// that the filter keeps, and every described task that the filter keeps is
/// reported. Where the filter keeps none, the report is empty.
pub proof fn report_holds_what_the_filter_keeps(
    filter: TaskFilterView,
    tasks: Seq<RawTaskView>,
    now: int,
)
    ensures
        report(filter, tasks, now).len() == kept(filter, tasks).len(),
        report(filter, tasks, now).len() <= tasks.len(),
        forall|i: int|
            0 <= i < report(filter, tasks, now).len() ==> {
                &&& tasks.contains(#[trigger] kept(filter, tasks)[i])
                &&& keeps(filter, kept(filter, tasks)[i])
                &&& report(filter, tasks, now)[i] == normalize(kept(filter, tasks)[i], now)
            },
        forall|j: int|
            0 <= j < tasks.len() && keeps(filter, #[trigger] tasks[j]) ==> kept(
                filter,
                tasks,
            ).contains(tasks[j]),
        (forall|j: int| 0 <= j < tasks.len() ==> !keeps(filter, #[trigger] tasks[j])) ==> report(
            filter,
            tasks,
            now,
        ).len() == 0,
{
    let pred = |task: RawTaskView| keeps(filter, task);
    let chosen = kept(filter, tasks);
    tasks.lemma_filter_len(pred);
    assert forall|i: int| 0 <= i < chosen.len() implies tasks.contains(#[trigger] chosen[i])
        && keeps(filter, chosen[i]) by {
        tasks.lemma_filter_pred(pred, i);
        tasks.lemma_filter_contains_rev(pred, chosen[i]);
    }
    assert forall|j: int|
        0 <= j < tasks.len() && keeps(filter, #[trigger] tasks[j]) implies chosen.contains(
        tasks[j],
    ) by {
        tasks.lemma_filter_contains(pred, j);
    }
    if chosen.len() > 0 {
        assert(tasks.contains(chosen[0]) && keeps(filter, chosen[0]));
    }
}

/// The report keeps the order of the described tasks: the report on two
/// lists of tasks, one after the other, is the report on the first followed
/// by the report on the second. The report on a single task is its record
/// or nothing.
pub proof fn report_keeps_the_order(
    filter: TaskFilterView,
    earlier: Seq<RawTaskView>,
    later: Seq<RawTaskView>,
    task: RawTaskView,
    now: int,
)
    ensures
        report(filter, earlier + later, now) == report(filter, earlier, now) + report(
            filter,
            later,
            now,
        ),
        report(filter, seq![task], now) == if keeps(filter, task) {
            seq![normalize(task, now)]
        } else {
            Seq::<TaskInfoView>::empty()
        },
{
    let pred = |task: RawTaskView| keeps(filter, task);
    Seq::filter_distributes_over_add(earlier, later, pred);
    assert(report(filter, earlier + later, now) =~= report(filter, earlier, now) + report(
        filter,
        later,
        now,
    ));
    let none = Seq::<RawTaskView>::empty();
    kept_grows_at_the_end(filter, none, task);
    assert(kept(filter, none) =~= none) by {
        reveal(Seq::filter);
    }
    assert(report(filter, seq![task], now) =~= if keeps(filter, task) {
        seq![normalize(task, now)]
    } else {
        Seq::<TaskInfoView>::empty()
    });
}

/// A query for a family reports only tasks whose task definition's id
/// holds the family's name. After a listing that is not empty it reports
/// them whether or not there are any: none in the family is an empty
/// report, not a failure.
pub proof fn family_query_reports_the_family(
    family: TaskFamilyView,
    task_arns: Seq<Seq<char>>,
    tasks: Seq<RawTaskView>,
    now: int,
)
    requires
        task_arns.len() > 0,
    ensures
        ({
            let filter = TaskFilterView::Family(family);
            let found = report(filter, tasks, now);
            &&& query_run(filter, task_arns, tasks, now) == QueryStepView::Finish(Ok(found))
            &&& forall|i: int|
                0 <= i < found.len() ==> exists|j: int|
                    0 <= j < tasks.len() && in_family(tasks[j], family.task_family)
                        && #[trigger] found[i] == normalize(#[trigger] tasks[j], now)
            &&& forall|j: int|
                0 <= j < tasks.len() && !in_family(#[trigger] tasks[j], family.task_family)
                    ==> !kept(filter, tasks).contains(tasks[j])
            &&& (forall|j: int|
                0 <= j < tasks.len() ==> !in_family(#[trigger] tasks[j], family.task_family))
                ==> found.len() == 0
        }),
{
    let filter = TaskFilterView::Family(family);
    let found = report(filter, tasks, now);
    let chosen = kept(filter, tasks);
    report_holds_what_the_filter_keeps(filter, tasks, now);
    assert forall|i: int| 0 <= i < found.len() implies exists|j: int|
        0 <= j < tasks.len() && in_family(tasks[j], family.task_family) && #[trigger] found[i]
            == normalize(#[trigger] tasks[j], now) by {
        assert(tasks.contains(chosen[i]));
    }
    assert forall|j: int|
        0 <= j < tasks.len() && !in_family(
            #[trigger] tasks[j],
            family.task_family,
        ) implies !chosen.contains(tasks[j]) by {
        if chosen.contains(tasks[j]) {
            let i = choose|i: int| 0 <= i < chosen.len() && chosen[i] == tasks[j];
            assert(keeps(filter, chosen[i]));
        }
    }
}

/// A task carries a tag exactly where one of its reported tags has that
/// very key and that very value, a missing key or value read as empty. A
/// tag with the key and another value does not count, nor one with the
/// value and another key.
pub proof fn carrying_a_tag_is_exact(task: RawTaskView, tag: EcsTagView)
    ensures
        has_tag(task, tag) <==> exists|k: int|
            0 <= k < task.tags.len() && text_or_empty((#[trigger] task.tags[k]).key) == tag.key
                && text_or_empty(task.tags[k].value) == tag.value,
        has_tag(task, tag) <==> normalize(task, 0).tags.contains(tag),
{
    let reported = normalize_tags(task.tags);
    if has_tag(task, tag) {
        let k = choose|k: int| 0 <= k < reported.len() && reported[k] == tag;
        assert(text_or_empty(task.tags[k].key) == tag.key && text_or_empty(task.tags[k].value)
            == tag.value);
    }
    if exists|k: int|
        0 <= k < task.tags.len() && text_or_empty((#[trigger] task.tags[k]).key) == tag.key
            && text_or_empty(task.tags[k].value) == tag.value {
        let k = choose|k: int|
            0 <= k < task.tags.len() && text_or_empty((#[trigger] task.tags[k]).key) == tag.key
                && text_or_empty(task.tags[k].value) == tag.value;
        assert(reported[k] == tag);
    }
}

/// A query for a tag reports only tasks that carry the tag, and each record
/// shows the tag among its own. A task that does not carry it is not among
/// those reported.
pub proof fn tag_query_reports_the_tagged(
    tag: EcsTagView,
    task_arns: Seq<Seq<char>>,
    tasks: Seq<RawTaskView>,
    now: int,
)
    requires
        task_arns.len() > 0,
    ensures
        ({
            let filter = TaskFilterView::Tag(tag);
            let found = report(filter, tasks, now);
            &&& query_run(filter, task_arns, tasks, now) == QueryStepView::Finish(Ok(found))
            &&& forall|i: int| 0 <= i < found.len() ==> (#[trigger] found[i]).tags.contains(tag)
            &&& forall|i: int|
                0 <= i < found.len() ==> exists|j: int|
                    0 <= j < tasks.len() && has_tag(tasks[j], tag) && #[trigger] found[i]
                        == normalize(#[trigger] tasks[j], now)
            &&& forall|j: int|
                0 <= j < tasks.len() && !has_tag(#[trigger] tasks[j], tag) ==> !kept(
                    filter,
                    tasks,
                ).contains(tasks[j])
        }),
{
    let filter = TaskFilterView::Tag(tag);
    let found = report(filter, tasks, now);
    let chosen = kept(filter, tasks);
    report_holds_what_the_filter_keeps(filter, tasks, now);
    assert forall|i: int| 0 <= i < found.len() implies (#[trigger] found[i]).tags.contains(tag) by {
        assert(has_tag(chosen[i], tag));
    }
    assert forall|i: int| 0 <= i < found.len() implies exists|j: int|
        0 <= j < tasks.len() && has_tag(tasks[j], tag) && #[trigger] found[i] == normalize(
            #[trigger] tasks[j],
            now,
        ) by {
        assert(tasks.contains(chosen[i]));
    }
    assert forall|j: int|
        0 <= j < tasks.len() && !has_tag(#[trigger] tasks[j], tag) implies !chosen.contains(
        tasks[j],
    ) by {
        if chosen.contains(tasks[j]) {
            let i = choose|i: int| 0 <= i < chosen.len() && chosen[i] == tasks[j];
            assert(keeps(filter, chosen[i]));
        }
    }
}

} // verus!

use ecs_task_spawner::ecs::gateway::{GatewayRequest, GatewayResponse};
use ecs_task_spawner::ecs::models::{EcsTag, TaskFamily, TaskInfo};
use ecs_task_spawner::ecs::query::{QueryState, QueryStep, TaskFilter};
use ecs_task_spawner::ecs::raw::{RawContainer, RawTag, RawTask};
use ecs_task_spawner::errors::models::AppError;
use ecs_task_spawner::time::Timestamp;

fn at(secs: i64, nanos: u32) -> Timestamp {
    Timestamp::new(secs, nanos).unwrap()
}

fn family(name: &str) -> TaskFamily {
    TaskFamily { task_family: name.to_string() }
}

fn tag(key: &str, value: &str) -> EcsTag {
    EcsTag { key: key.to_string(), value: value.to_string() }
}

fn raw_tag(key: Option<&str>, value: Option<&str>) -> RawTag {
    RawTag { key: key.map(str::to_string), value: value.map(str::to_string) }
}

fn task(arn: &str, definition: Option<&str>, tags: Vec<RawTag>) -> RawTask {
    RawTask {
        task_arn: Some(arn.to_string()),
        last_status: Some("RUNNING".to_string()),
        created_at: Some(at(100, 0)),
        task_definition_arn: definition.map(str::to_string),
        containers: vec![RawContainer { image: Some("img".to_string()) }],
        tags,
    }
}

fn listed(ids: &[&str]) -> GatewayResponse {
    GatewayResponse::TasksListed { task_arns: ids.iter().map(|id| id.to_string()).collect() }
}

fn described(tasks: Vec<RawTask>) -> GatewayResponse {
    GatewayResponse::TasksDescribed { tasks }
}

fn failed(detail: &str) -> GatewayResponse {
    GatewayResponse::Failed { detail: detail.to_string() }
}

fn confused() -> (QueryState, QueryStep) {
    (
        QueryState::Finished,
        QueryStep::Finish(Err(AppError::InternalServerError(
            "unexpected reply from the orchestrator".to_string(),
        ))),
    )
}

fn run(filter: TaskFilter, tasks: Vec<RawTask>, now: Timestamp) -> Vec<String> {
    let (state, _) = QueryState::start(filter);
    let (state, _) = state.step_at(listed(&["some-task"]), now);
    let (state, step) = state.step_at(described(tasks), now);
    assert_eq!(state, QueryState::Finished);
    match step {
        QueryStep::Finish(Ok(found)) => found.into_iter().map(|info| info.task_arn).collect(),
        other => panic!("the query did not report tasks: {:?}", other),
    }
}

fn by_family(name: &str, tasks: Vec<RawTask>) -> Vec<String> {
    run(TaskFilter::Family(family(name)), tasks, at(200, 0))
}

fn by_tag(key: &str, value: &str, tasks: Vec<RawTask>) -> Vec<String> {
    run(TaskFilter::Tag(tag(key, value)), tasks, at(200, 0))
}

#[test]
fn query_lists_the_cluster_first() {
    let (state, step) = QueryState::get_task_family(family("my-task-family"));
    assert_eq!(state, QueryState::Listing(TaskFilter::Family(family("my-task-family"))));
    assert_eq!(step, QueryStep::Call(GatewayRequest::ListTasks { cluster: "default".to_string() }));
    let (state, step) = QueryState::get_tasks(tag("soiid", "r1"));
    assert_eq!(state, QueryState::Listing(TaskFilter::Tag(tag("soiid", "r1"))));
    assert_eq!(step, QueryStep::Call(GatewayRequest::ListTasks { cluster: "default".to_string() }));
    let (state, step) = QueryState::start(TaskFilter::Tag(tag("soiid", "r1")));
    assert_eq!(state, QueryState::Listing(TaskFilter::Tag(tag("soiid", "r1"))));
    assert_eq!(step, QueryStep::Call(GatewayRequest::ListTasks { cluster: "default".to_string() }));
}

#[test]
fn empty_listing_fails_family_query_with_not_found() {
    let (state, _) = QueryState::get_task_family(family("my-task-family"));
    let (state, step) = state.step_at(listed(&[]), at(0, 0));
    assert_eq!(state, QueryState::Finished);
    assert_eq!(
        step,
        QueryStep::Finish(Err(AppError::NotFoundError("no tasks in cluster".to_string())))
    );
}

#[test]
fn empty_listing_fails_tag_query_with_not_found_naming_the_tag() {
    let (state, _) = QueryState::get_tasks(tag("soiid", "r1"));
    let (state, step) = state.step_at(listed(&[]), at(0, 0));
    assert_eq!(state, QueryState::Finished);
    assert_eq!(
        step,
        QueryStep::Finish(Err(AppError::NotFoundError("no tasks with tag soiid=r1".to_string())))
    );
    let (state, _) = QueryState::get_tasks(tag("", ""));
    let (_, step) = state.step_at(listed(&[]), at(0, 0));
    assert_eq!(
        step,
        QueryStep::Finish(Err(AppError::NotFoundError("no tasks with tag =".to_string())))
    );
}

#[test]
fn listed_tasks_are_described_in_one_call() {
    let (state, _) = QueryState::get_task_family(family("fam"));
    let (state, step) = state.step_at(listed(&["t/1", "t/2", "t/3"]), at(0, 0));
    assert_eq!(state, QueryState::Describing(TaskFilter::Family(family("fam"))));
    assert_eq!(
        step,
        QueryStep::Call(GatewayRequest::DescribeTasks {
            cluster: "default".to_string(),
            task_arns: vec!["t/1".to_string(), "t/2".to_string(), "t/3".to_string()],
        })
    );
}

#[test]
fn family_query_keeps_tasks_whose_definition_holds_the_family() {
    let tasks = vec![
        task("t/1", Some("arn:task-definition/my-task-family:1"), Vec::new()),
        task("t/2", Some("arn:task-definition/other-family:4"), Vec::new()),
        task("t/3", None, Vec::new()),
        task("t/4", Some("my-task-family"), Vec::new()),
        task("t/5", Some("arn:task-definition/my-task-famil"), Vec::new()),
        task("t/6", Some("prefix-my-task-family-suffix"), Vec::new()),
    ];
    assert_eq!(by_family("my-task-family", tasks), vec!["t/1", "t/4", "t/6"]);
}

#[test]
fn family_query_is_case_sensitive() {
    let tasks = vec![
        task("t/1", Some("arn:task-definition/My-Task-Family:1"), Vec::new()),
        task("t/2", Some("arn:task-definition/my-task-family:1"), Vec::new()),
    ];
    assert_eq!(by_family("my-task-family", tasks), vec!["t/2"]);
}

#[test]
fn family_query_with_no_match_reports_an_empty_list() {
    let tasks = vec![
        task("t/1", Some("arn:task-definition/other:1"), Vec::new()),
        task("t/2", None, Vec::new()),
    ];
    assert_eq!(by_family("my-task-family", tasks), Vec::<String>::new());
    assert_eq!(by_family("my-task-family", Vec::new()), Vec::<String>::new());
}

#[test]
fn empty_family_matches_every_task_that_has_a_definition() {
    let tasks = vec![
        task("t/1", Some("arn:task-definition/other:1"), Vec::new()),
        task("t/2", None, Vec::new()),
        task("t/3", Some(""), Vec::new()),
    ];
    assert_eq!(by_family("", tasks), vec!["t/1", "t/3"]);
}

#[test]
fn family_longer_than_the_definition_id_does_not_match() {
    let tasks = vec![task("t/1", Some("fam"), Vec::new())];
    assert_eq!(by_family("family", tasks), Vec::<String>::new());
}

#[test]
fn family_query_matches_characters_beyond_ascii() {
    let tasks = vec![
        task("t/1", Some("définition/famille-é:1"), Vec::new()),
        task("t/2", Some("definition/famille-e:1"), Vec::new()),
    ];
    assert_eq!(by_family("famille-é", tasks), vec!["t/1"]);
}

#[test]
fn query_reports_in_the_order_of_the_description() {
    let tasks = vec![
        task("t/9", Some("fam:1"), Vec::new()),
        task("t/1", Some("fam:2"), Vec::new()),
        task("t/5", Some("fam:3"), Vec::new()),
        task("t/1", Some("fam:2"), Vec::new()),
    ];
    assert_eq!(by_family("fam", tasks), vec!["t/9", "t/1", "t/5", "t/1"]);
}

#[test]
fn tag_query_keeps_tasks_with_the_very_tag() {
    let tasks = vec![
        task("t/1", None, vec![raw_tag(Some("soiid"), Some("r1"))]),
        task("t/2", None, vec![raw_tag(Some("soiid"), Some("r2"))]),
        task("t/3", None, vec![raw_tag(Some("clientid"), Some("r1"))]),
        task(
            "t/4",
            None,
            vec![raw_tag(Some("clientid"), Some("c1")), raw_tag(Some("soiid"), Some("r1"))],
        ),
        task("t/5", None, Vec::new()),
    ];
    assert_eq!(by_tag("soiid", "r1", tasks), vec!["t/1", "t/4"]);
}

#[test]
fn tag_with_the_key_and_another_value_is_excluded() {
    let tasks = vec![
        task("t/1", None, vec![raw_tag(Some("soiid"), Some("r10"))]),
        task("t/2", None, vec![raw_tag(Some("soiid"), Some("r"))]),
        task("t/3", None, vec![raw_tag(Some("soiid"), Some("R1"))]),
        task("t/4", None, vec![raw_tag(Some("soiid2"), Some("r1"))]),
        task("t/5", None, vec![raw_tag(Some("soiid"), None)]),
    ];
    assert_eq!(by_tag("soiid", "r1", tasks), Vec::<String>::new());
}

#[test]
fn key_and_value_must_match_in_one_tag() {
    let tasks = vec![task(
        "t/1",
        None,
        vec![raw_tag(Some("soiid"), Some("c1")), raw_tag(Some("clientid"), Some("r1"))],
    )];
    assert_eq!(by_tag("soiid", "r1", tasks), Vec::<String>::new());
}

#[test]
fn missing_tag_parts_are_read_as_empty() {
    let tasks = vec![
        task("t/1", None, vec![raw_tag(Some("soiid"), None)]),
        task("t/2", None, vec![raw_tag(None, Some("r1"))]),
        task("t/3", None, vec![raw_tag(None, None)]),
        task("t/4", None, vec![raw_tag(Some("soiid"), Some(""))]),
    ];
    assert_eq!(by_tag("soiid", "", clone_tasks(&tasks)), vec!["t/1", "t/4"]);
    assert_eq!(by_tag("", "r1", clone_tasks(&tasks)), vec!["t/2"]);
    assert_eq!(by_tag("", "", clone_tasks(&tasks)), vec!["t/3"]);
}

fn clone_tasks(tasks: &[RawTask]) -> Vec<RawTask> {
    tasks
        .iter()
        .map(|t| RawTask {
            task_arn: t.task_arn.clone(),
            last_status: t.last_status.clone(),
            created_at: t.created_at,
            task_definition_arn: t.task_definition_arn.clone(),
            containers: t
                .containers
                .iter()
                .map(|c| RawContainer { image: c.image.clone() })
                .collect(),
            tags: t
                .tags
                .iter()
                .map(|g| RawTag { key: g.key.clone(), value: g.value.clone() })
                .collect(),
        })
        .collect()
}

#[test]
fn every_reported_record_shows_the_tag() {
    let tasks = vec![
        task("t/1", None, vec![raw_tag(Some("a"), Some("b")), raw_tag(Some("soiid"), Some("r1"))]),
        task("t/2", None, vec![raw_tag(Some("a"), Some("b"))]),
        task("t/3", None, vec![raw_tag(Some("soiid"), Some("r1"))]),
    ];
    let (state, _) = QueryState::get_tasks(tag("soiid", "r1"));
    let (state, _) = state.step_at(listed(&["t/1", "t/2", "t/3"]), at(0, 0));
    let (_, step) = state.step_at(described(tasks), at(0, 0));
    match step {
        QueryStep::Finish(Ok(found)) => {
            assert_eq!(found.len(), 2);
            for info in found {
                assert!(info.tags.contains(&tag("soiid", "r1")));
            }
        }
        other => panic!("the query did not report tasks: {:?}", other),
    }
}

#[test]
fn reported_records_are_the_normalized_tasks() {
    let kept = task("t/1", Some("fam:1"), vec![raw_tag(Some("k"), None)]);
    let dropped = task("t/2", Some("other:1"), Vec::new());
    let now = at(160, 500);
    let wanted = TaskInfo::from_at(&kept, now);
    let (state, _) = QueryState::get_task_family(family("fam"));
    let (state, _) = state.step_at(listed(&["t/1", "t/2"]), at(150, 0));
    let (state, step) = state.step_at(described(vec![kept, dropped]), now);
    assert_eq!(state, QueryState::Finished);
    assert_eq!(step, QueryStep::Finish(Ok(vec![wanted])));
}

#[test]
fn failed_listing_ends_the_query() {
    let (state, _) = QueryState::get_task_family(family("fam"));
    let (state, step) = state.step_at(failed("throttled"), at(0, 0));
    assert_eq!(state, QueryState::Finished);
    assert_eq!(step, QueryStep::Finish(Err(AppError::ListTasksError("throttled".to_string()))));
}

#[test]
fn failed_description_ends_the_query() {
    let (state, _) = QueryState::get_tasks(tag("k", "v"));
    let (state, _) = state.step_at(listed(&["t/1"]), at(0, 0));
    let (state, step) = state.step_at(failed("invalid parameter"), at(0, 0));
    assert_eq!(state, QueryState::Finished);
    assert_eq!(
        step,
        QueryStep::Finish(Err(AppError::DescribeTaskError("invalid parameter".to_string())))
    );
}

#[test]
fn reply_to_another_call_ends_the_query_as_an_internal_error() {
    let (state, _) = QueryState::get_task_family(family("fam"));
    assert_eq!(state.step_at(described(Vec::new()), at(0, 0)), confused());
    let (state, _) = QueryState::get_task_family(family("fam"));
    assert_eq!(
        state.step_at(
            GatewayResponse::DefinitionRegistered { task_definition_arn: "d".to_string() },
            at(0, 0)
        ),
        confused()
    );
    let (state, _) = QueryState::get_task_family(family("fam"));
    let (state, _) = state.step_at(listed(&["t/1"]), at(0, 0));
    assert_eq!(state.step_at(listed(&["t/1"]), at(0, 0)), confused());
    let (state, _) = QueryState::get_task_family(family("fam"));
    let (state, _) = state.step_at(listed(&["t/1"]), at(0, 0));
    assert_eq!(
        state.step_at(GatewayResponse::TasksStarted { tasks: Vec::new() }, at(0, 0)),
        confused()
    );
}

#[test]
fn finished_query_takes_no_more_replies() {
    assert_eq!(QueryState::Finished.step_at(listed(&["t/1"]), at(0, 0)), confused());
    assert_eq!(QueryState::Finished.step_at(described(Vec::new()), at(0, 0)), confused());
    assert_eq!(QueryState::Finished.step_at(failed("late"), at(0, 0)), confused());
}

#[test]
fn query_by_the_clock_takes_the_same_steps() {
    let (state, _) = QueryState::get_task_family(family("fam"));
    let (state, step) = state.step(listed(&["t/1"]));
    assert_eq!(
        step,
        QueryStep::Call(GatewayRequest::DescribeTasks {
            cluster: "default".to_string(),
            task_arns: vec!["t/1".to_string()],
        })
    );
    let created = Timestamp::now().secs() - 300;
    let mut kept = task("t/1", Some("fam:1"), Vec::new());
    kept.created_at = Some(at(created, 0));
    let (state, step) = state.step(described(vec![kept, task("t/2", Some("other"), Vec::new())]));
    assert_eq!(state, QueryState::Finished);
    match step {
        QueryStep::Finish(Ok(found)) => {
            assert_eq!(found.len(), 1);
            assert_eq!(found[0].task_arn, "t/1");
            let age = found[0].running_duration.unwrap().secs();
            assert!(age >= 300 && age < 360);
        }
        other => panic!("the query did not report tasks: {:?}", other),
    }
    let (state, _) = QueryState::get_tasks(tag("k", "v"));
    let (state, step) = state.step(listed(&[]));
    assert_eq!(state, QueryState::Finished);
    assert_eq!(
        step,
        QueryStep::Finish(Err(AppError::NotFoundError("no tasks with tag k=v".to_string())))
    );
}

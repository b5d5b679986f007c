use ecs_task_spawner::ecs::gateway::{GatewayRequest, GatewayResponse};
use ecs_task_spawner::ecs::models::{EcsTaskDefinition, TaskInfo, TaskRequest};
use ecs_task_spawner::ecs::raw::{RawContainer, RawTask};
use ecs_task_spawner::ecs::spawn::{SpawnState, SpawnStep};
use ecs_task_spawner::errors::models::AppError;
use ecs_task_spawner::time::{Elapsed, Timestamp};

fn at(secs: i64, nanos: u32) -> Timestamp {
    Timestamp::new(secs, nanos).unwrap()
}

fn request(vendor: &str) -> TaskRequest {
    TaskRequest {
        data_location: "s3://bucket/x".to_string(),
        soiid: "r1".to_string(),
        clientid: "c1".to_string(),
        vendor: vendor.to_string(),
    }
}

fn started_task(arn: &str, created: i64) -> RawTask {
    RawTask {
        task_arn: Some(arn.to_string()),
        last_status: Some("PROVISIONING".to_string()),
        created_at: Some(at(created, 0)),
        task_definition_arn: Some("def:1".to_string()),
        containers: vec![RawContainer { image: Some("img".to_string()) }],
        tags: Vec::new(),
    }
}

fn registered(arn: &str) -> GatewayResponse {
    GatewayResponse::DefinitionRegistered { task_definition_arn: arn.to_string() }
}

fn failed(detail: &str) -> GatewayResponse {
    GatewayResponse::Failed { detail: detail.to_string() }
}

fn confused() -> (SpawnState, SpawnStep) {
    (
        SpawnState::Finished,
        SpawnStep::Finish(Err(AppError::InternalServerError(
            "unexpected reply from the orchestrator".to_string(),
        ))),
    )
}

#[test]
fn spawn_registers_the_built_definition_first() {
    let (state, step) = SpawnState::start(request("bloomberg"));
    let definition = EcsTaskDefinition::new(request("bloomberg")).unwrap();
    assert_eq!(
        state,
        SpawnState::Registering {
            cluster_name: "default".to_string(),
            subnet_id: "subnet-0c8b6b6b".to_string(),
            security_group_id: "sg-0c8b6b6b".to_string(),
        }
    );
    assert_eq!(step, SpawnStep::Call(GatewayRequest::RegisterDefinition { definition }));
}

#[test]
fn spawn_of_unknown_vendor_ends_without_a_call() {
    let (state, step) = SpawnState::start(request("unknown"));
    assert_eq!(state, SpawnState::Finished);
    assert_eq!(step, SpawnStep::Finish(Err(AppError::UnsupportedVendor("unknown".to_string()))));
}

#[test]
fn spawn_from_a_definition_keeps_its_placement() {
    let mut definition = EcsTaskDefinition::new(request("bloomberg")).unwrap();
    definition.cluster_name = "batch".to_string();
    definition.subnet_id = "subnet-1".to_string();
    definition.security_group_id = "sg-1".to_string();
    let (state, step) = SpawnState::spawn(definition.clone());
    assert_eq!(step, SpawnStep::Call(GatewayRequest::RegisterDefinition { definition }));
    let (state, step) = state.step_at(registered("def:7"), at(0, 0));
    assert_eq!(state, SpawnState::Starting);
    assert_eq!(
        step,
        SpawnStep::Call(GatewayRequest::RunTask {
            cluster: "batch".to_string(),
            task_definition_arn: "def:7".to_string(),
            subnet_id: "subnet-1".to_string(),
            security_group_id: "sg-1".to_string(),
        })
    );
}

#[test]
fn spawn_runs_the_registered_definition_and_reports_the_first_task() {
    let (state, _) = SpawnState::start(request("bloomberg"));
    let (state, step) = state.step_at(registered("def:1"), at(50, 0));
    assert_eq!(state, SpawnState::Starting);
    assert_eq!(
        step,
        SpawnStep::Call(GatewayRequest::RunTask {
            cluster: "default".to_string(),
            task_definition_arn: "def:1".to_string(),
            subnet_id: "subnet-0c8b6b6b".to_string(),
            security_group_id: "sg-0c8b6b6b".to_string(),
        })
    );
    let tasks = vec![started_task("task/1", 100), started_task("task/2", 90)];
    let (state, step) = state.step_at(GatewayResponse::TasksStarted { tasks }, at(130, 0));
    assert_eq!(state, SpawnState::Finished);
    assert_eq!(
        step,
        SpawnStep::Finish(Ok(TaskInfo {
            task_arn: "task/1".to_string(),
            status: "PROVISIONING".to_string(),
            created_at: at(100, 0),
            running_duration: Some(Elapsed::new(30, 0).unwrap()),
            image: "img".to_string(),
            cpu_usage: None,
            memory_usage: None,
            tags: Vec::new(),
        }))
    );
}

#[test]
fn spawn_that_started_no_task_fails() {
    let (state, _) = SpawnState::start(request("bloomberg"));
    let (state, _) = state.step_at(registered("def:1"), at(0, 0));
    let (state, step) =
        state.step_at(GatewayResponse::TasksStarted { tasks: Vec::new() }, at(0, 0));
    assert_eq!(state, SpawnState::Finished);
    assert_eq!(step, SpawnStep::Finish(Err(AppError::NoTaskStarted)));
}

#[test]
fn failed_registration_ends_the_spawn() {
    let (state, _) = SpawnState::start(request("bloomberg"));
    let (state, step) = state.step_at(failed("access denied"), at(0, 0));
    assert_eq!(state, SpawnState::Finished);
    assert_eq!(
        step,
        SpawnStep::Finish(Err(AppError::RegisterTaskDefinitionError("access denied".to_string())))
    );
}

#[test]
fn failed_run_ends_the_spawn() {
    let (state, _) = SpawnState::start(request("bloomberg"));
    let (state, _) = state.step_at(registered("def:1"), at(0, 0));
    let (state, step) = state.step_at(failed("cluster not found"), at(0, 0));
    assert_eq!(state, SpawnState::Finished);
    assert_eq!(
        step,
        SpawnStep::Finish(Err(AppError::RunTaskError("cluster not found".to_string())))
    );
}

#[test]
fn reply_to_another_call_ends_the_spawn_as_an_internal_error() {
    let (state, _) = SpawnState::start(request("bloomberg"));
    assert_eq!(
        state.step_at(GatewayResponse::TasksListed { task_arns: Vec::new() }, at(0, 0)),
        confused()
    );
    let (state, _) = SpawnState::start(request("bloomberg"));
    assert_eq!(
        state.step_at(GatewayResponse::TasksStarted { tasks: Vec::new() }, at(0, 0)),
        confused()
    );
    let (state, _) = SpawnState::start(request("bloomberg"));
    let (state, _) = state.step_at(registered("def:1"), at(0, 0));
    assert_eq!(state.step_at(registered("def:2"), at(0, 0)), confused());
    let (state, _) = SpawnState::start(request("bloomberg"));
    let (state, _) = state.step_at(registered("def:1"), at(0, 0));
    assert_eq!(
        state.step_at(GatewayResponse::TasksDescribed { tasks: Vec::new() }, at(0, 0)),
        confused()
    );
}

#[test]
fn finished_spawn_takes_no_more_replies() {
    assert_eq!(SpawnState::Finished.step_at(registered("def:1"), at(0, 0)), confused());
    assert_eq!(SpawnState::Finished.step_at(failed("late"), at(0, 0)), confused());
    assert_eq!(
        SpawnState::Finished
            .step_at(GatewayResponse::TasksStarted { tasks: vec![started_task("t", 0)] }, at(0, 0)),
        confused()
    );
}

#[test]
fn spawn_by_the_clock_takes_the_same_steps() {
    let (state, _) = SpawnState::start(request("bloomberg"));
    let (state, step) = state.step(registered("def:1"));
    assert_eq!(state, SpawnState::Starting);
    assert_eq!(
        step,
        SpawnStep::Call(GatewayRequest::RunTask {
            cluster: "default".to_string(),
            task_definition_arn: "def:1".to_string(),
            subnet_id: "subnet-0c8b6b6b".to_string(),
            security_group_id: "sg-0c8b6b6b".to_string(),
        })
    );
    let created = Timestamp::now().secs() - 500;
    let (state, step) =
        state.step(GatewayResponse::TasksStarted { tasks: vec![started_task("task/1", created)] });
    assert_eq!(state, SpawnState::Finished);
    match step {
        SpawnStep::Finish(Ok(info)) => {
            assert_eq!(info.task_arn, "task/1");
            assert_eq!(info.created_at, at(created, 0));
            let age = info.running_duration.unwrap().secs();
            assert!(age >= 500 && age < 560);
        }
        other => panic!("the spawn did not report a task: {:?}", other),
    }
}

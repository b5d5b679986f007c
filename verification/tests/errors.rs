use ecs_task_spawner::errors::models::AppError;

fn every_kind() -> Vec<(AppError, &'static str, u16, &'static str)> {
    let detail = || "detail".to_string();
    vec![
        (AppError::TaskSpawnError(detail()), "TASK_SPAWN_ERROR", 500, "Task spawn error"),
        (AppError::AwsSdkError(detail()), "AWS_SDK_ERROR", 500, "AWS SDK error"),
        (AppError::ValidationError(detail()), "VALIDATION_ERROR", 400, "Validation error"),
        (AppError::NotFoundError(detail()), "NOT_FOUND_ERROR", 404, "Not found error"),
        (AppError::UnauthorizedError(detail()), "UNAUTHORIZED_ERROR", 401, "Unauthorized error"),
        (
            AppError::InternalServerError(detail()),
            "INTERNAL_SERVER_ERROR",
            500,
            "Internal server error",
        ),
        (
            AppError::LogConfigurationError(detail()),
            "LOG_CONFIGURATION_ERROR",
            500,
            "Log configuration build error",
        ),
        (
            AppError::RegisterTaskDefinitionError(detail()),
            "REGISTER_TASK_DEFINITION_ERROR",
            500,
            "Register task definition error",
        ),
        (AppError::RunTaskError(detail()), "RUN_TASK_ERROR", 500, "Run task error"),
        (AppError::ListTasksError(detail()), "LIST_TASKS_ERROR", 500, "List task error"),
        (AppError::DescribeTaskError(detail()), "DESCRIBE_TASK_ERROR", 500, "Describe task error"),
        (AppError::NoTaskStarted, "NO_TASK_STARTED", 500, "No task started"),
        (AppError::UnsupportedVendor(detail()), "UNSUPPORTED_VENDOR", 400, "Unsupport vendor."),
    ]
}

#[test]
fn every_kind_has_its_code_status_and_message() {
    for (error, code, status, message) in every_kind() {
        assert_eq!(error.error_type(), code);
        assert_eq!(error.status_code(), status);
        assert_eq!(error.message(), message);
    }
}

#[test]
fn codes_differ_from_kind_to_kind() {
    let kinds = every_kind();
    for (i, a) in kinds.iter().enumerate() {
        for (j, b) in kinds.iter().enumerate() {
            assert_eq!(a.0.error_type() == b.0.error_type(), i == j);
        }
    }
}

#[test]
fn code_status_and_message_do_not_depend_on_the_detail() {
    let a = AppError::NotFoundError("no tasks in cluster".to_string());
    let b = AppError::NotFoundError(String::new());
    assert_eq!(a.error_type(), b.error_type());
    assert_eq!(a.status_code(), b.status_code());
    assert_eq!(a.message(), b.message());
    assert_eq!(a.message(), "Not found error");
}

#[test]
fn bad_requests_are_400_and_missing_tasks_404() {
    assert_eq!(AppError::UnsupportedVendor("x".to_string()).status_code(), 400);
    assert_eq!(AppError::ValidationError("x".to_string()).status_code(), 400);
    assert_eq!(AppError::NotFoundError("x".to_string()).status_code(), 404);
    assert_eq!(AppError::NoTaskStarted.status_code(), 500);
}

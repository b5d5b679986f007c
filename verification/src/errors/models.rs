//! The error taxonomy, and what each kind looks like to an HTTP client.

use vstd::prelude::*;

verus! {

/// A failure of the service. The text that a variant carries is the detail
/// for logs; a client sees the kind's code, status and fixed message.
#[derive(Debug, PartialEq, Eq)]
pub enum AppError {
    /// A task could not be spawned for a reason no other kind names.
    TaskSpawnError(String),
    /// The orchestrator's SDK failed outside the four gateway calls.
    AwsSdkError(String),
    /// The request was malformed.
    ValidationError(String),
    /// The cluster holds nothing to answer the query with.
    NotFoundError(String),
    /// The caller did not present the API key.
    UnauthorizedError(String),
    /// A failure that fits no other kind.
    InternalServerError(String),
    /// The log configuration of a container could not be built.
    LogConfigurationError(String),
    /// The orchestrator refused to register the task definition.
    RegisterTaskDefinitionError(String),
    /// The orchestrator refused to run the task.
    RunTaskError(String),
    /// The orchestrator failed to list the cluster's tasks.
    ListTasksError(String),
    /// The orchestrator failed to describe the listed tasks.
    DescribeTaskError(String),
    /// The orchestrator accepted the run request and started no task.
    NoTaskStarted,
    /// The request names a vendor that the catalog does not hold.
    UnsupportedVendor(String),
}

/// An [`AppError`] with its text as a sequence of characters.
pub enum AppErrorView {
    TaskSpawnError(Seq<char>),
    AwsSdkError(Seq<char>),
    ValidationError(Seq<char>),
    NotFoundError(Seq<char>),
    UnauthorizedError(Seq<char>),
    InternalServerError(Seq<char>),
    LogConfigurationError(Seq<char>),
    RegisterTaskDefinitionError(Seq<char>),
    RunTaskError(Seq<char>),
    ListTasksError(Seq<char>),
    DescribeTaskError(Seq<char>),
    NoTaskStarted,
    UnsupportedVendor(Seq<char>),
}

impl View for AppError {
    type V = AppErrorView;

    open spec fn view(&self) -> AppErrorView {
        match self {
            AppError::TaskSpawnError(detail) => AppErrorView::TaskSpawnError(detail@),
            AppError::AwsSdkError(detail) => AppErrorView::AwsSdkError(detail@),
            AppError::ValidationError(detail) => AppErrorView::ValidationError(detail@),
            AppError::NotFoundError(detail) => AppErrorView::NotFoundError(detail@),
            AppError::UnauthorizedError(detail) => AppErrorView::UnauthorizedError(detail@),
            AppError::InternalServerError(detail) => AppErrorView::InternalServerError(detail@),
            AppError::LogConfigurationError(detail) => AppErrorView::LogConfigurationError(detail@),
            AppError::RegisterTaskDefinitionError(detail) => {
                AppErrorView::RegisterTaskDefinitionError(detail@)
            },
            AppError::RunTaskError(detail) => AppErrorView::RunTaskError(detail@),
            AppError::ListTasksError(detail) => AppErrorView::ListTasksError(detail@),
            AppError::DescribeTaskError(detail) => AppErrorView::DescribeTaskError(detail@),
            AppError::NoTaskStarted => AppErrorView::NoTaskStarted,
            AppError::UnsupportedVendor(vendor) => AppErrorView::UnsupportedVendor(vendor@),
        }
    }
}

impl DeepView for AppError {
    type V = AppErrorView;

    open spec fn deep_view(&self) -> AppErrorView {
        self@
    }
}

/// The machine-readable code of an error's kind.
pub open spec fn error_code(error: AppErrorView) -> Seq<char> {
    match error {
        AppErrorView::TaskSpawnError(_) => "TASK_SPAWN_ERROR"@,
        AppErrorView::AwsSdkError(_) => "AWS_SDK_ERROR"@,
        AppErrorView::ValidationError(_) => "VALIDATION_ERROR"@,
        AppErrorView::NotFoundError(_) => "NOT_FOUND_ERROR"@,
        AppErrorView::UnauthorizedError(_) => "UNAUTHORIZED_ERROR"@,
        AppErrorView::InternalServerError(_) => "INTERNAL_SERVER_ERROR"@,
        AppErrorView::LogConfigurationError(_) => "LOG_CONFIGURATION_ERROR"@,
        AppErrorView::RegisterTaskDefinitionError(_) => "REGISTER_TASK_DEFINITION_ERROR"@,
        AppErrorView::RunTaskError(_) => "RUN_TASK_ERROR"@,
        AppErrorView::ListTasksError(_) => "LIST_TASKS_ERROR"@,
        AppErrorView::DescribeTaskError(_) => "DESCRIBE_TASK_ERROR"@,
        AppErrorView::NoTaskStarted => "NO_TASK_STARTED"@,
        AppErrorView::UnsupportedVendor(_) => "UNSUPPORTED_VENDOR"@,
    }
}

/// The HTTP status of an error's kind: 400 for a request that cannot be
/// served as it stands, 401 for a missing key, 404 where nothing is found,
/// 500 for every failure of the orchestrator or of the service itself.
pub open spec fn http_status(error: AppErrorView) -> int {
    match error {
        AppErrorView::ValidationError(_) | AppErrorView::UnsupportedVendor(_) => 400,
        AppErrorView::UnauthorizedError(_) => 401,
        AppErrorView::NotFoundError(_) => 404,
        _ => 500,
    }
}

/// The message of an error's kind. It is the same for every error of the
/// kind, so no detail of the backend reaches a client through it.
pub open spec fn error_message(error: AppErrorView) -> Seq<char> {
    match error {
        AppErrorView::TaskSpawnError(_) => "Task spawn error"@,
        AppErrorView::AwsSdkError(_) => "AWS SDK error"@,
        AppErrorView::ValidationError(_) => "Validation error"@,
        AppErrorView::NotFoundError(_) => "Not found error"@,
        AppErrorView::UnauthorizedError(_) => "Unauthorized error"@,
        AppErrorView::InternalServerError(_) => "Internal server error"@,
        AppErrorView::LogConfigurationError(_) => "Log configuration build error"@,
        AppErrorView::RegisterTaskDefinitionError(_) => "Register task definition error"@,
        AppErrorView::RunTaskError(_) => "Run task error"@,
        AppErrorView::ListTasksError(_) => "List task error"@,
        AppErrorView::DescribeTaskError(_) => "Describe task error"@,
        AppErrorView::NoTaskStarted => "No task started"@,
        AppErrorView::UnsupportedVendor(_) => "Unsupport vendor."@,
    }
}

impl AppError {
    /// The machine-readable code of this error's kind.
    pub fn error_type(&self) -> (code: &str)
        ensures
            code@ == error_code(self@),
    {
        match self {
            AppError::TaskSpawnError(_) => "TASK_SPAWN_ERROR",
            AppError::AwsSdkError(_) => "AWS_SDK_ERROR",
            AppError::ValidationError(_) => "VALIDATION_ERROR",
            AppError::NotFoundError(_) => "NOT_FOUND_ERROR",
            AppError::UnauthorizedError(_) => "UNAUTHORIZED_ERROR",
            AppError::InternalServerError(_) => "INTERNAL_SERVER_ERROR",
            AppError::LogConfigurationError(_) => "LOG_CONFIGURATION_ERROR",
            AppError::RegisterTaskDefinitionError(_) => "REGISTER_TASK_DEFINITION_ERROR",
            AppError::RunTaskError(_) => "RUN_TASK_ERROR",
            AppError::ListTasksError(_) => "LIST_TASKS_ERROR",
            AppError::DescribeTaskError(_) => "DESCRIBE_TASK_ERROR",
            AppError::NoTaskStarted => "NO_TASK_STARTED",
            AppError::UnsupportedVendor(_) => "UNSUPPORTED_VENDOR",
        }
    }

    /// The HTTP status that a response for this error carries.
    pub fn status_code(&self) -> (status: u16)
        ensures
            status == http_status(self@),
    {
        match self {
            AppError::ValidationError(_) | AppError::UnsupportedVendor(_) => 400,
            AppError::UnauthorizedError(_) => 401,
            AppError::NotFoundError(_) => 404,
            _ => 500,
        }
    }

    /// The message that a response for this error carries.
    pub fn message(&self) -> (text: String)
        ensures
            text@ == error_message(self@),
    {
        match self {
            AppError::TaskSpawnError(_) => "Task spawn error".to_string(),
            AppError::AwsSdkError(_) => "AWS SDK error".to_string(),
            AppError::ValidationError(_) => "Validation error".to_string(),
            AppError::NotFoundError(_) => "Not found error".to_string(),
            AppError::UnauthorizedError(_) => "Unauthorized error".to_string(),
            AppError::InternalServerError(_) => "Internal server error".to_string(),
            AppError::LogConfigurationError(_) => "Log configuration build error".to_string(),
            AppError::RegisterTaskDefinitionError(_) => {
                "Register task definition error".to_string()
            },
            AppError::RunTaskError(_) => "Run task error".to_string(),
            AppError::ListTasksError(_) => "List task error".to_string(),
            AppError::DescribeTaskError(_) => "Describe task error".to_string(),
            AppError::NoTaskStarted => "No task started".to_string(),
            AppError::UnsupportedVendor(_) => "Unsupport vendor.".to_string(),
        }
    }
}

/// The kind of an error: its variant without the text.
pub open spec fn same_kind(a: AppErrorView, b: AppErrorView) -> bool {
    match (a, b) {
        (AppErrorView::TaskSpawnError(_), AppErrorView::TaskSpawnError(_)) => true,
        (AppErrorView::AwsSdkError(_), AppErrorView::AwsSdkError(_)) => true,
        (AppErrorView::ValidationError(_), AppErrorView::ValidationError(_)) => true,
        (AppErrorView::NotFoundError(_), AppErrorView::NotFoundError(_)) => true,
        (AppErrorView::UnauthorizedError(_), AppErrorView::UnauthorizedError(_)) => true,
        (AppErrorView::InternalServerError(_), AppErrorView::InternalServerError(_)) => true,
        (AppErrorView::LogConfigurationError(_), AppErrorView::LogConfigurationError(_)) => true,
        (
            AppErrorView::RegisterTaskDefinitionError(_),
            AppErrorView::RegisterTaskDefinitionError(_),
        ) => true,
        (AppErrorView::RunTaskError(_), AppErrorView::RunTaskError(_)) => true,
        (AppErrorView::ListTasksError(_), AppErrorView::ListTasksError(_)) => true,
        (AppErrorView::DescribeTaskError(_), AppErrorView::DescribeTaskError(_)) => true,
        (AppErrorView::NoTaskStarted, AppErrorView::NoTaskStarted) => true,
        (AppErrorView::UnsupportedVendor(_), AppErrorView::UnsupportedVendor(_)) => true,
        _ => false,
    }
}

/// What tells the codes apart: a code's length with its first and third
/// characters.
spec fn fingerprint(code: Seq<char>) -> (nat, char, char) {
    (code.len(), code[0], code[2])
}

/// The code names the kind: two errors carry the same code exactly when
/// they are of the same kind, whatever their text. Status and message go by
/// the kind alone.
pub proof fn code_names_the_kind(a: AppErrorView, b: AppErrorView)
    ensures
        error_code(a) == error_code(b) <==> same_kind(a, b),
        same_kind(a, b) ==> http_status(a) == http_status(b),
        same_kind(a, b) ==> error_message(a) == error_message(b),
{
    reveal_strlit("TASK_SPAWN_ERROR");
    reveal_strlit("AWS_SDK_ERROR");
    reveal_strlit("VALIDATION_ERROR");
    reveal_strlit("NOT_FOUND_ERROR");
    reveal_strlit("UNAUTHORIZED_ERROR");
    reveal_strlit("INTERNAL_SERVER_ERROR");
    reveal_strlit("LOG_CONFIGURATION_ERROR");
    reveal_strlit("REGISTER_TASK_DEFINITION_ERROR");
    reveal_strlit("RUN_TASK_ERROR");
    reveal_strlit("LIST_TASKS_ERROR");
    reveal_strlit("DESCRIBE_TASK_ERROR");
    reveal_strlit("NO_TASK_STARTED");
    reveal_strlit("UNSUPPORTED_VENDOR");
    assert(fingerprint(error_code(a)) == fingerprint(error_code(b)) ==> same_kind(a, b));
}

} // verus!

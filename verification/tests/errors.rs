use cursus::dtos::error::task::TaskServiceError;
use cursus::dtos::error::user::UserServiceError;
use cursus::dtos::error::workflow::WorkflowServiceError;
use cursus::dtos::error::workflow_task::WorkflowTaskServiceError;
use cursus::dtos::error::workflow_task_edge::WorkflowTaskEdgeServiceError;
use cursus::dtos::error::{ApiError, ValidationError};
use cursus::handlers::errors::{client_error, internal_error, ErrorReply};
use cursus::json::JsonValue;

const INTERNAL: &str = "Something went wrong. Please try again later.";

fn entry(key: &str, text: &str) -> Option<JsonValue> {
    Some(JsonValue::Object(vec![(key.to_string(), JsonValue::String(text.to_string()))]))
}

fn client(status: u16, message: &str) -> ErrorReply {
    ErrorReply {
        status,
        body: ApiError { error: message.to_string() },
        log_context: entry("reason", message),
    }
}

fn internal(cause: &str) -> ErrorReply {
    ErrorReply {
        status: 500,
        body: ApiError { error: INTERNAL.to_string() },
        log_context: entry("cause", cause),
    }
}

#[test]
fn the_generic_internal_error_hides_the_cause() {
    assert_eq!(ApiError::internal_server_error().error, INTERNAL);
    assert_eq!(internal_error("boom".to_string()), internal("boom"));
    assert_eq!(client_error(404, "gone".to_string()), client(404, "gone"));
}

#[test]
fn task_errors_map_to_their_statuses() {
    let e = TaskServiceError::TaskNotFound;
    assert_eq!(e.to_string(), "task not found");
    assert_eq!(e.error_response(), client(404, "task not found"));
    let e = TaskServiceError::NotTaskOwner;
    assert_eq!(e.error_response(), client(403, &format!("this {}", "task belongs to another user")));
    let e = TaskServiceError::InvalidTaskId("x1".to_string());
    assert_eq!(e.error_response(), client(400, "'x1' is not a valid task id"));
    let e = TaskServiceError::InvalidUserId("u".to_string());
    assert_eq!(e.to_string(), "'u' is not a valid user id");
    let e = TaskServiceError::InvalidJsonField { field: "body" };
    assert_eq!(e.error_response(), client(400, "the body field is not valid json"));
    let e = TaskServiceError::Database("relation \"tasks\" does not exist".to_string());
    assert_eq!(e.to_string(), "database error: relation \"tasks\" does not exist");
    assert_eq!(e.error_response(), internal("relation \"tasks\" does not exist"));
}

#[test]
fn guessable_user_failures_all_answer_401() {
    for (e, m) in [
        (UserServiceError::InvalidCredentials, "invalid credentials"),
        (UserServiceError::InvalidVerificationCode, "the verification code is not valid"),
        (UserServiceError::VerificationCodeExpired, "the verification code has expired"),
        (UserServiceError::MalformedToken, "the token could not be read"),
        (UserServiceError::RejectedToken, "the token is no longer valid"),
    ] {
        assert_eq!(e.error_response(), client(401, m));
    }
}

#[test]
fn user_errors_map_to_their_statuses() {
    assert_eq!(
        UserServiceError::EmailAlreadyExists.error_response(),
        client(409, "an account with that email already exists")
    );
    assert_eq!(
        UserServiceError::EmailNotVerified.error_response(),
        client(403, "this account has not verified its email address")
    );
    assert_eq!(UserServiceError::UserNotFound.error_response(), client(404, "user not found"));
    assert_eq!(
        UserServiceError::InvalidUserId("abc".to_string()).error_response(),
        client(400, "'abc' is not a valid user id")
    );
    assert_eq!(
        UserServiceError::HashingFailed.error_response(),
        internal("password hashing failed")
    );
    assert_eq!(
        UserServiceError::TokenIssuanceFailed.error_response(),
        internal("could not issue a token")
    );
    assert_eq!(
        UserServiceError::MissingConfiguration("JWT_SECRET").error_response(),
        internal("required configuration is missing: JWT_SECRET")
    );
    assert_eq!(
        UserServiceError::Database("timeout".to_string()).error_response(),
        internal("timeout")
    );
}

#[test]
fn workflow_errors_map_to_their_statuses() {
    assert_eq!(
        WorkflowServiceError::WorkflowNotFound.error_response(),
        client(404, "workflow not found")
    );
    assert_eq!(WorkflowServiceError::TaskNotFound.error_response(), client(404, "task not found"));
    assert_eq!(
        WorkflowServiceError::NotWorkflowOwner.error_response(),
        client(403, "this workflow belongs to another user")
    );
    assert_eq!(
        WorkflowServiceError::UnsupportedRunType("hourly".to_string()).error_response(),
        client(400, "'hourly' is not a supported run type")
    );
    assert_eq!(
        WorkflowServiceError::InvalidCronExpression("* *".to_string()).error_response(),
        client(400, "'* *' is not a valid cron expression")
    );
    assert_eq!(
        WorkflowServiceError::InvalidWorkflowId("w".to_string()).to_string(),
        "'w' is not a valid workflow id"
    );
    assert_eq!(
        WorkflowServiceError::MissingScheduleField { run_type: "cron", field: "cron_expression" }
            .error_response(),
        client(400, "a cron workflow requires cron_expression")
    );
    assert_eq!(
        WorkflowServiceError::InvalidScheduleTime.error_response(),
        client(400, "the scheduled time is not a valid timestamp")
    );
    assert_eq!(WorkflowServiceError::Database("x".to_string()).error_response(), internal("x"));
}

#[test]
fn workflow_task_errors_map_to_their_statuses() {
    assert_eq!(
        WorkflowTaskServiceError::WorkflowTaskNotFound.error_response(),
        client(404, "workflow task not found")
    );
    assert_eq!(
        WorkflowTaskServiceError::NotTaskOwner.error_response(),
        client(403, &format!("this {}", "task belongs to another user"))
    );
    assert_eq!(
        WorkflowTaskServiceError::DuplicateStepName("fetch".to_string()).error_response(),
        client(409, "a step named 'fetch' already exists in this workflow")
    );
    assert_eq!(
        WorkflowTaskServiceError::InvalidId("7".to_string()).error_response(),
        client(400, "'7' is not a valid id")
    );
    assert_eq!(
        WorkflowTaskServiceError::NegativeRetryConfiguration.error_response(),
        client(400, "retry_count and retry_delay_secs cannot be negative")
    );
    assert_eq!(
        WorkflowTaskServiceError::InvalidJsonField { field: "task_body" }.to_string(),
        "the task_body field is not valid json"
    );
    assert_eq!(
        WorkflowTaskServiceError::Database("db down".to_string()).error_response(),
        internal("db down")
    );
}

#[test]
fn edge_errors_map_to_their_statuses() {
    assert_eq!(
        WorkflowTaskEdgeServiceError::EdgeNotFound.error_response(),
        client(404, "edge not found")
    );
    assert_eq!(
        WorkflowTaskEdgeServiceError::DuplicateEdge.error_response(),
        client(409, "an edge already connects these two steps")
    );
    assert_eq!(
        WorkflowTaskEdgeServiceError::SelfLoop.error_response(),
        client(400, "a step cannot depend on itself")
    );
    assert_eq!(
        WorkflowTaskEdgeServiceError::CycleDetected.error_response(),
        client(400, "this edge would create a cycle in the workflow")
    );
    assert_eq!(
        WorkflowTaskEdgeServiceError::StepOutsideWorkflow.error_response(),
        client(400, "both steps must belong to this workflow")
    );
    assert_eq!(
        WorkflowTaskEdgeServiceError::NotWorkflowOwner.error_response(),
        client(403, "this workflow belongs to another user")
    );
    assert_eq!(
        WorkflowTaskEdgeServiceError::Database("e".to_string()).error_response(),
        internal("e")
    );
}

#[test]
fn a_validation_error_answers_400_with_field_and_message() {
    let e = ValidationError { field: "email".to_string(), message: "Invalid email format".to_string() };
    assert_eq!(e.to_string(), "email: Invalid email format");
    assert_eq!(
        e.error_response(),
        ErrorReply {
            status: 400,
            body: ApiError { error: "email: Invalid email format".to_string() },
            log_context: None
        }
    );
}

use cursus::dto::error::task::TaskServiceError;
use cursus::dto::error::user::UserServiceError;
use cursus::dto::error::workflow::WorkflowServiceError;
use cursus::dto::error::workflow_task::WorkflowTaskServiceError;
use cursus::dto::error::workflow_task_edge::WorkflowTaskEdgeServiceError;
use cursus::dto::error::ApiError;
use cursus::handlers::errors::ErrorReply;

const INTERNAL: &str = "Something went wrong. Please try again later.";

fn reply(status: u16, body: &str) -> ErrorReply {
    ErrorReply { status, body: ApiError { error: body.to_string() }, log_context: None }
}

#[test]
fn legacy_task_errors() {
    let e = TaskServiceError::DatabaseError("conn reset".to_string());
    assert_eq!(e.to_string(), "Database error: conn reset");
    assert_eq!(e.error_response(), reply(500, INTERNAL));
    assert_eq!(TaskServiceError::TaskNotFound.error_response(), reply(404, "Task not found"));
    assert_eq!(TaskServiceError::ServiceError.error_response(), reply(500, "Service error"));
    assert_eq!(
        TaskServiceError::Unauthorized.error_response(),
        reply(403, "You cannot perform this action on a task that does not belong to you")
    );
}

#[test]
fn legacy_user_errors() {
    assert_eq!(UserServiceError::EmailAlreadyExists.error_response(), reply(409, "Email already exists"));
    assert_eq!(UserServiceError::HashingFailed.to_string(), "Password hashing failed");
    assert_eq!(UserServiceError::HashingFailed.error_response(), reply(500, INTERNAL));
    assert_eq!(UserServiceError::DatabaseError("x".to_string()).error_response(), reply(500, INTERNAL));
    assert_eq!(UserServiceError::InvalidCredentials.error_response(), reply(401, "Invalid credentials"));
    assert_eq!(
        UserServiceError::InvalidVerificationCode.error_response(),
        reply(401, "Invalid verification code")
    );
    assert_eq!(UserServiceError::MissingENV.to_string(), "Missing an env variable");
    assert_eq!(UserServiceError::MissingENV.error_response(), reply(500, INTERNAL));
    assert_eq!(UserServiceError::TokenError.error_response(), reply(500, INTERNAL));
    assert_eq!(UserServiceError::InvalidToken.error_response(), reply(401, "Invalid Token error"));
}

#[test]
fn legacy_workflow_errors() {
    assert_eq!(WorkflowServiceError::DatabaseError("d".to_string()).error_response(), reply(500, INTERNAL));
    assert_eq!(WorkflowServiceError::WorkflowNotFound.error_response(), reply(404, "Workflow not found"));
    assert_eq!(
        WorkflowServiceError::Unauthorized.error_response(),
        reply(403, "You do not have permission to access this workflow")
    );
    assert_eq!(WorkflowServiceError::ServiceError.error_response(), reply(500, "Service error"));
    assert_eq!(WorkflowServiceError::TaskNotFound.error_response(), reply(404, "Task not found"));
}

#[test]
fn legacy_workflow_task_errors() {
    assert_eq!(WorkflowTaskServiceError::DatabaseError("d".to_string()).error_response(), reply(500, INTERNAL));
    assert_eq!(
        WorkflowTaskServiceError::WorkflowTaskNotFound.error_response(),
        reply(404, "Workflow task not found")
    );
    assert_eq!(
        WorkflowTaskServiceError::WorkflowTaskNotOwned.error_response(),
        reply(403, "You do not own this workflow task")
    );
    assert_eq!(
        WorkflowTaskServiceError::DuplicateStepName.error_response(),
        reply(409, "Step name already exists in this workflow")
    );
    assert_eq!(WorkflowTaskServiceError::TaskNotOwned.error_response(), reply(403, &format!("You do not own this {}", "task")));
    assert_eq!(
        WorkflowTaskServiceError::WorkflowNotOwned.error_response(),
        reply(403, "You do not own this workflow")
    );
    assert_eq!(WorkflowTaskServiceError::ServiceError.error_response(), reply(500, "Service error"));
    assert_eq!(WorkflowTaskServiceError::WorkflowNotFound.error_response(), reply(404, "Workflow not found"));
    assert_eq!(WorkflowTaskServiceError::TaskNotFound.error_response(), reply(404, "Task not found"));
}

#[test]
fn legacy_edge_errors() {
    assert_eq!(WorkflowTaskEdgeServiceError::DatabaseError("d".to_string()).error_response(), reply(500, INTERNAL));
    assert_eq!(WorkflowTaskEdgeServiceError::EdgeNotFound.error_response(), reply(404, "Edge not found"));
    assert_eq!(
        WorkflowTaskEdgeServiceError::InvalidStep.error_response(),
        reply(400, "One or both steps do not exist in this workflow")
    );
    assert_eq!(
        WorkflowTaskEdgeServiceError::DuplicateEdge.error_response(),
        reply(409, "Edge already exists between these steps")
    );
    assert_eq!(
        WorkflowTaskEdgeServiceError::SelfLoop.error_response(),
        reply(400, "A task cannot have an edge to itself")
    );
    assert_eq!(
        WorkflowTaskEdgeServiceError::WorkflowNotOwned.error_response(),
        reply(403, "You do not own this workflow")
    );
    assert_eq!(
        WorkflowTaskEdgeServiceError::ServiceError.error_response(),
        reply(500, "An unexpected error occurred. Please try again later.")
    );
    assert_eq!(
        WorkflowTaskEdgeServiceError::WorkflowTaskNotFound.error_response(),
        reply(404, "Workflow task not found")
    );
    assert_eq!(WorkflowTaskEdgeServiceError::WorkflowNotFound.error_response(), reply(404, "Workflow not found"));
}

//! What can go wrong when placing a task into a workflow.
use vstd::prelude::*;

use crate::dtos::error::{ApiError, internal_error_message};
use crate::handlers::errors::{ErrorReply, plain_reply};
use crate::text::concat2;

verus! {

#[derive(Debug, PartialEq, Eq)]
pub enum WorkflowTaskServiceError {
    /// A database failure, held as the text of the database error.
    DatabaseError(String),
    WorkflowTaskNotFound,
    WorkflowNotFound,
    WorkflowTaskNotOwned,
    DuplicateStepName,
    TaskNotFound,
    TaskNotOwned,
    WorkflowNotOwned,
    /// Generic error for unexpected cases.
    ServiceError,
}

impl WorkflowTaskServiceError {
    /// The error's message.
    pub open spec fn message(self) -> Seq<char> {
        match self {
            WorkflowTaskServiceError::DatabaseError(e) => "Database error: "@ + e@,
            WorkflowTaskServiceError::WorkflowTaskNotFound => "Workflow task not found"@,
            WorkflowTaskServiceError::WorkflowNotFound => "Workflow not found"@,
            WorkflowTaskServiceError::WorkflowTaskNotOwned => "You do not own this workflow task"@,
            WorkflowTaskServiceError::DuplicateStepName => "Step name already exists in this workflow"@,
            WorkflowTaskServiceError::TaskNotFound => "Task not found"@,
            WorkflowTaskServiceError::TaskNotOwned => "You do not own this "@ + "task"@,
            WorkflowTaskServiceError::WorkflowNotOwned => "You do not own this workflow"@,
            WorkflowTaskServiceError::ServiceError => "Service error"@,
        }
    }

    /// The status the error answers with; 500 marks a failure on our side.
    pub open spec fn status(self) -> u16 {
        match self {
            WorkflowTaskServiceError::DatabaseError(..) => 500,
            WorkflowTaskServiceError::WorkflowTaskNotFound => 404,
            WorkflowTaskServiceError::WorkflowNotFound => 404,
            WorkflowTaskServiceError::WorkflowTaskNotOwned => 403,
            WorkflowTaskServiceError::DuplicateStepName => 409,
            WorkflowTaskServiceError::TaskNotFound => 404,
            WorkflowTaskServiceError::TaskNotOwned => 403,
            WorkflowTaskServiceError::WorkflowNotOwned => 403,
            WorkflowTaskServiceError::ServiceError => 500,
        }
    }

    pub fn to_string(&self) -> (s: String)
        ensures
            s@ == self.message(),
    {
        match self {
            WorkflowTaskServiceError::DatabaseError(e) => concat2("Database error: ", e.as_str()),
            WorkflowTaskServiceError::WorkflowTaskNotFound => String::from_str("Workflow task not found"),
            WorkflowTaskServiceError::WorkflowNotFound => String::from_str("Workflow not found"),
            WorkflowTaskServiceError::WorkflowTaskNotOwned => String::from_str("You do not own this workflow task"),
            WorkflowTaskServiceError::DuplicateStepName => String::from_str("Step name already exists in this workflow"),
            WorkflowTaskServiceError::TaskNotFound => String::from_str("Task not found"),
            WorkflowTaskServiceError::TaskNotOwned => concat2("You do not own this ", "task"),
            WorkflowTaskServiceError::WorkflowNotOwned => String::from_str("You do not own this workflow"),
            WorkflowTaskServiceError::ServiceError => String::from_str("Service error"),
        }
    }

    /// The response: the message for the caller's mistakes and for a service
    /// error, the generic internal message for every other failure on our side.
    pub fn error_response(&self) -> (r: ErrorReply)
        ensures
            r.status == self.status(),
            r.log_context is None,
            self.shows_message() ==> r.body.error@ == self.message(),
            !self.shows_message() ==> r.body.error@ == internal_error_message(),
    {
        match self {
            WorkflowTaskServiceError::DatabaseError(..) => plain_reply(500, ApiError::internal_server_error().error),
            WorkflowTaskServiceError::WorkflowTaskNotFound => plain_reply(404, self.to_string()),
            WorkflowTaskServiceError::WorkflowNotFound => plain_reply(404, self.to_string()),
            WorkflowTaskServiceError::WorkflowTaskNotOwned => plain_reply(403, self.to_string()),
            WorkflowTaskServiceError::DuplicateStepName => plain_reply(409, self.to_string()),
            WorkflowTaskServiceError::TaskNotFound => plain_reply(404, self.to_string()),
            WorkflowTaskServiceError::TaskNotOwned => plain_reply(403, self.to_string()),
            WorkflowTaskServiceError::WorkflowNotOwned => plain_reply(403, self.to_string()),
            WorkflowTaskServiceError::ServiceError => plain_reply(500, self.to_string()),
        }
    }

    /// Whether the response shows the message (or the generic internal one).
    pub open spec fn shows_message(self) -> bool {
        match self {
            WorkflowTaskServiceError::DatabaseError(..) => false,
            WorkflowTaskServiceError::WorkflowTaskNotFound => true,
            WorkflowTaskServiceError::WorkflowNotFound => true,
            WorkflowTaskServiceError::WorkflowTaskNotOwned => true,
            WorkflowTaskServiceError::DuplicateStepName => true,
            WorkflowTaskServiceError::TaskNotFound => true,
            WorkflowTaskServiceError::TaskNotOwned => true,
            WorkflowTaskServiceError::WorkflowNotOwned => true,
            WorkflowTaskServiceError::ServiceError => true,
        }
    }
}

/// Who is at fault decides the status: a database or service failure is ours
/// (500); a missing step, workflow or task is 404, someone else's 403, and a
/// repeated step name 409.
pub proof fn law_workflow_task_errors_answer_by_fault(e: WorkflowTaskServiceError)
    ensures
        (e is DatabaseError || e is ServiceError) <==> e.status() == 500,
        !(e is DatabaseError || e is ServiceError) ==> 400 <= e.status() <= 499,
        (e is WorkflowTaskNotFound || e is WorkflowNotFound || e is TaskNotFound) ==> e.status() == 404,
        (e is WorkflowTaskNotOwned || e is TaskNotOwned || e is WorkflowNotOwned) ==> e.status() == 403,
        e is DuplicateStepName ==> e.status() == 409,
{
}

} // verus!

//! What can go wrong in the workflow service.
use vstd::prelude::*;

use crate::dtos::error::{ApiError, internal_error_message};
use crate::handlers::errors::{ErrorReply, plain_reply};
use crate::text::concat2;

verus! {

#[derive(Debug, PartialEq, Eq)]
pub enum WorkflowServiceError {
    /// A database failure, held as the text of the database error.
    DatabaseError(String),
    WorkflowNotFound,
    Unauthorized,
    ServiceError,
    TaskNotFound,
}

impl WorkflowServiceError {
    /// The error's message.
    pub open spec fn message(self) -> Seq<char> {
        match self {
            WorkflowServiceError::DatabaseError(e) => "Database error: "@ + e@,
            WorkflowServiceError::WorkflowNotFound => "Workflow not found"@,
            WorkflowServiceError::Unauthorized => "You do not have permission to access this workflow"@,
            WorkflowServiceError::ServiceError => "Service error"@,
            WorkflowServiceError::TaskNotFound => "Task not found"@,
        }
    }

    /// The status the error answers with; 500 marks a failure on our side.
    pub open spec fn status(self) -> u16 {
        match self {
            WorkflowServiceError::DatabaseError(..) => 500,
            WorkflowServiceError::WorkflowNotFound => 404,
            WorkflowServiceError::Unauthorized => 403,
            WorkflowServiceError::ServiceError => 500,
            WorkflowServiceError::TaskNotFound => 404,
        }
    }

    pub fn to_string(&self) -> (s: String)
        ensures
            s@ == self.message(),
    {
        match self {
            WorkflowServiceError::DatabaseError(e) => concat2("Database error: ", e.as_str()),
            WorkflowServiceError::WorkflowNotFound => String::from_str("Workflow not found"),
            WorkflowServiceError::Unauthorized => String::from_str("You do not have permission to access this workflow"),
            WorkflowServiceError::ServiceError => String::from_str("Service error"),
            WorkflowServiceError::TaskNotFound => String::from_str("Task not found"),
        }
    }

    /// The response: the message for the caller's mistakes and for a service
    /// error, the generic internal message for every other failure on our side.
    pub fn error_response(&self) -> (r: ErrorReply)
        ensures
            r.status == self.status(),
            r.log_context is None,
            self.shows_message() ==> r.body.error@ == self.message(),
            !self.shows_message() ==> r.body.error@ == internal_error_message(),
    {
        match self {
            WorkflowServiceError::DatabaseError(..) => plain_reply(500, ApiError::internal_server_error().error),
            WorkflowServiceError::WorkflowNotFound => plain_reply(404, self.to_string()),
            WorkflowServiceError::Unauthorized => plain_reply(403, self.to_string()),
            WorkflowServiceError::ServiceError => plain_reply(500, self.to_string()),
            WorkflowServiceError::TaskNotFound => plain_reply(404, self.to_string()),
        }
    }

    /// Whether the response shows the message (or the generic internal one).
    pub open spec fn shows_message(self) -> bool {
        match self {
            WorkflowServiceError::DatabaseError(..) => false,
            WorkflowServiceError::WorkflowNotFound => true,
            WorkflowServiceError::Unauthorized => true,
            WorkflowServiceError::ServiceError => true,
            WorkflowServiceError::TaskNotFound => true,
        }
    }
}

/// Who is at fault decides the status: a database or service failure is ours
/// (500); a missing workflow or task is 404 and someone else's workflow 403.
pub proof fn law_workflow_errors_answer_by_fault(e: WorkflowServiceError)
    ensures
        (e is DatabaseError || e is ServiceError) <==> e.status() == 500,
        !(e is DatabaseError || e is ServiceError) ==> 400 <= e.status() <= 499,
        (e is WorkflowNotFound || e is TaskNotFound) ==> e.status() == 404,
        e is Unauthorized ==> e.status() == 403,
{
}

} // verus!

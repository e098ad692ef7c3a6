//! What can go wrong when placing a task into a workflow as a step.
//!
//! Domain language only, no status codes; `error_response` turns one into a
//! response.
use vstd::prelude::*;

use crate::handlers::errors::{
    ErrorReply, client_error, internal_error, is_client_error, is_internal_error,
};
use crate::text::{concat2, concat3};

verus! {

#[derive(Debug, PartialEq, Eq)]
pub enum WorkflowTaskServiceError {
    WorkflowTaskNotFound,
    WorkflowNotFound,
    TaskNotFound,
    NotWorkflowOwner,
    NotTaskOwner,
    /// Step names identify a step within its workflow, so they have to be
    /// unique there.
    DuplicateStepName(String),
    InvalidId(String),
    InvalidJsonField { field: &'static str },
    NegativeRetryConfiguration,
    /// A database failure, held as the text of the database error.
    Database(String),
}

impl WorkflowTaskServiceError {
    /// The error's message.
    pub open spec fn message(self) -> Seq<char> {
        match self {
            WorkflowTaskServiceError::WorkflowTaskNotFound => "workflow task not found"@,
            WorkflowTaskServiceError::WorkflowNotFound => "workflow not found"@,
            WorkflowTaskServiceError::TaskNotFound => "task not found"@,
            WorkflowTaskServiceError::NotWorkflowOwner => "this workflow belongs to another user"@,
            WorkflowTaskServiceError::NotTaskOwner => "this "@ + "task belongs to another user"@,
            WorkflowTaskServiceError::DuplicateStepName(name) => "a step named '"@ + name@ + "' already exists in this workflow"@,
            WorkflowTaskServiceError::InvalidId(id) => "'"@ + id@ + "' is not a valid id"@,
            WorkflowTaskServiceError::InvalidJsonField { field } => "the "@ + field@ + " field is not valid json"@,
            WorkflowTaskServiceError::NegativeRetryConfiguration => "retry_count and retry_delay_secs cannot be negative"@,
            WorkflowTaskServiceError::Database(e) => "database error: "@ + e@,
        }
    }

    /// The status the error answers with; 500 marks a failure on our side.
    pub open spec fn status(self) -> u16 {
        match self {
            WorkflowTaskServiceError::WorkflowTaskNotFound => 404,
            WorkflowTaskServiceError::WorkflowNotFound => 404,
            WorkflowTaskServiceError::TaskNotFound => 404,
            WorkflowTaskServiceError::NotWorkflowOwner => 403,
            WorkflowTaskServiceError::NotTaskOwner => 403,
            WorkflowTaskServiceError::DuplicateStepName(..) => 409,
            WorkflowTaskServiceError::InvalidId(..) => 400,
            WorkflowTaskServiceError::InvalidJsonField { .. } => 400,
            WorkflowTaskServiceError::NegativeRetryConfiguration => 400,
            WorkflowTaskServiceError::Database(..) => 500,
        }
    }

    pub fn to_string(&self) -> (s: String)
        ensures
            s@ == self.message(),
    {
        match self {
            WorkflowTaskServiceError::WorkflowTaskNotFound => String::from_str("workflow task not found"),
            WorkflowTaskServiceError::WorkflowNotFound => String::from_str("workflow not found"),
            WorkflowTaskServiceError::TaskNotFound => String::from_str("task not found"),
            WorkflowTaskServiceError::NotWorkflowOwner => String::from_str("this workflow belongs to another user"),
            WorkflowTaskServiceError::NotTaskOwner => concat2("this ", "task belongs to another user"),
            WorkflowTaskServiceError::DuplicateStepName(name) => concat3("a step named '", name.as_str(), "' already exists in this workflow"),
            WorkflowTaskServiceError::InvalidId(id) => concat3("'", id.as_str(), "' is not a valid id"),
            WorkflowTaskServiceError::InvalidJsonField { field } => concat3("the ", field, " field is not valid json"),
            WorkflowTaskServiceError::NegativeRetryConfiguration => String::from_str("retry_count and retry_delay_secs cannot be negative"),
            WorkflowTaskServiceError::Database(e) => concat2("database error: ", e.as_str()),
        }
    }

    /// The response: the message for the caller's own mistakes, a flat internal
    /// error for a failure on our side, whose cause goes onto the log line only.
    pub fn error_response(&self) -> (r: ErrorReply)
        ensures
            r.status == self.status(),
            self.status() != 500 ==> is_client_error(r, self.status(), self.message()),
            self matches WorkflowTaskServiceError::Database(e) ==> is_internal_error(r, e@),
    {
        match self {
            WorkflowTaskServiceError::WorkflowTaskNotFound => client_error(404, self.to_string()),
            WorkflowTaskServiceError::WorkflowNotFound => client_error(404, self.to_string()),
            WorkflowTaskServiceError::TaskNotFound => client_error(404, self.to_string()),
            WorkflowTaskServiceError::NotWorkflowOwner => client_error(403, self.to_string()),
            WorkflowTaskServiceError::NotTaskOwner => client_error(403, self.to_string()),
            WorkflowTaskServiceError::DuplicateStepName(..) => client_error(409, self.to_string()),
            WorkflowTaskServiceError::InvalidId(..) => client_error(400, self.to_string()),
            WorkflowTaskServiceError::InvalidJsonField { .. } => client_error(400, self.to_string()),
            WorkflowTaskServiceError::NegativeRetryConfiguration => client_error(400, self.to_string()),
            WorkflowTaskServiceError::Database(e) => internal_error(e.clone()),
        }
    }
}

/// Who is at fault decides the answer: a database failure is ours (500);
/// every other step error is the caller's (a 4xx): a missing step, workflow
/// or task is 404, someone else's workflow or task 403, a repeated step
/// name 409, and an id, JSON field or retry setting that does not read is
/// 400.
pub proof fn law_workflow_task_errors_answer_by_fault(e: WorkflowTaskServiceError)
    ensures
        e is Database ==> e.status() == 500,
        !(e is Database) ==> 400 <= e.status() <= 499,
        (e is WorkflowTaskNotFound || e is WorkflowNotFound || e is TaskNotFound) ==> e.status() == 404,
        (e is NotWorkflowOwner || e is NotTaskOwner) ==> e.status() == 403,
        e is DuplicateStepName ==> e.status() == 409,
        (e is InvalidId || e is InvalidJsonField || e is NegativeRetryConfiguration) ==> e.status() == 400,
{
}

} // verus!

//! What can go wrong in the workflow service.
//!
//! Domain language only, no status codes; `error_response` turns one into a
//! response.
use vstd::prelude::*;

use crate::handlers::errors::{
    ErrorReply, client_error, internal_error, is_client_error, is_internal_error,
};
use crate::text::{concat2, concat3, concat4};

verus! {

#[derive(Debug, PartialEq, Eq)]
pub enum WorkflowServiceError {
    WorkflowNotFound,
    TaskNotFound,
    NotWorkflowOwner,
    InvalidWorkflowId(String),
    InvalidUserId(String),
    /// A run type outside the accepted set of manual, scheduled, and cron.
    UnsupportedRunType(String),
    InvalidCronExpression(String),
    /// A scheduled or cron workflow missing the field its run type requires.
    MissingScheduleField { run_type: &'static str, field: &'static str },
    InvalidScheduleTime,
    /// A database failure, held as the text of the database error.
    Database(String),
}

impl WorkflowServiceError {
    /// The error's message.
    pub open spec fn message(self) -> Seq<char> {
        match self {
            WorkflowServiceError::WorkflowNotFound => "workflow not found"@,
            WorkflowServiceError::TaskNotFound => "task not found"@,
            WorkflowServiceError::NotWorkflowOwner => "this workflow belongs to another user"@,
            WorkflowServiceError::InvalidWorkflowId(id) => "'"@ + id@ + "' is not a valid workflow id"@,
            WorkflowServiceError::InvalidUserId(id) => "'"@ + id@ + "' is not a valid user id"@,
            WorkflowServiceError::UnsupportedRunType(t) => "'"@ + t@ + "' is not a supported run type"@,
            WorkflowServiceError::InvalidCronExpression(x) => "'"@ + x@ + "' is not a valid cron expression"@,
            WorkflowServiceError::MissingScheduleField { run_type, field } => "a "@ + run_type@ + " workflow requires "@ + field@,
            WorkflowServiceError::InvalidScheduleTime => "the scheduled time is not a valid timestamp"@,
            WorkflowServiceError::Database(e) => "database error: "@ + e@,
        }
    }

    /// The status the error answers with; 500 marks a failure on our side.
    pub open spec fn status(self) -> u16 {
        match self {
            WorkflowServiceError::WorkflowNotFound => 404,
            WorkflowServiceError::TaskNotFound => 404,
            WorkflowServiceError::NotWorkflowOwner => 403,
            WorkflowServiceError::InvalidWorkflowId(..) => 400,
            WorkflowServiceError::InvalidUserId(..) => 400,
            WorkflowServiceError::UnsupportedRunType(..) => 400,
            WorkflowServiceError::InvalidCronExpression(..) => 400,
            WorkflowServiceError::MissingScheduleField { .. } => 400,
            WorkflowServiceError::InvalidScheduleTime => 400,
            WorkflowServiceError::Database(..) => 500,
        }
    }

    pub fn to_string(&self) -> (s: String)
        ensures
            s@ == self.message(),
    {
        match self {
            WorkflowServiceError::WorkflowNotFound => String::from_str("workflow not found"),
            WorkflowServiceError::TaskNotFound => String::from_str("task not found"),
            WorkflowServiceError::NotWorkflowOwner => String::from_str("this workflow belongs to another user"),
            WorkflowServiceError::InvalidWorkflowId(id) => concat3("'", id.as_str(), "' is not a valid workflow id"),
            WorkflowServiceError::InvalidUserId(id) => concat3("'", id.as_str(), "' is not a valid user id"),
            WorkflowServiceError::UnsupportedRunType(t) => concat3("'", t.as_str(), "' is not a supported run type"),
            WorkflowServiceError::InvalidCronExpression(x) => concat3("'", x.as_str(), "' is not a valid cron expression"),
            WorkflowServiceError::MissingScheduleField { run_type, field } => concat4("a ", run_type, " workflow requires ", field),
            WorkflowServiceError::InvalidScheduleTime => String::from_str("the scheduled time is not a valid timestamp"),
            WorkflowServiceError::Database(e) => concat2("database error: ", e.as_str()),
        }
    }

    /// The response: the message for the caller's own mistakes, a flat internal
    /// error for a failure on our side, whose cause goes onto the log line only.
    pub fn error_response(&self) -> (r: ErrorReply)
        ensures
            r.status == self.status(),
            self.status() != 500 ==> is_client_error(r, self.status(), self.message()),
            self matches WorkflowServiceError::Database(e) ==> is_internal_error(r, e@),
    {
        match self {
            WorkflowServiceError::WorkflowNotFound => client_error(404, self.to_string()),
            WorkflowServiceError::TaskNotFound => client_error(404, self.to_string()),
            WorkflowServiceError::NotWorkflowOwner => client_error(403, self.to_string()),
            WorkflowServiceError::InvalidWorkflowId(..) => client_error(400, self.to_string()),
            WorkflowServiceError::InvalidUserId(..) => client_error(400, self.to_string()),
            WorkflowServiceError::UnsupportedRunType(..) => client_error(400, self.to_string()),
            WorkflowServiceError::InvalidCronExpression(..) => client_error(400, self.to_string()),
            WorkflowServiceError::MissingScheduleField { .. } => client_error(400, self.to_string()),
            WorkflowServiceError::InvalidScheduleTime => client_error(400, self.to_string()),
            WorkflowServiceError::Database(e) => internal_error(e.clone()),
        }
    }
}

/// Who is at fault decides the answer: a database failure is ours (500);
/// every other workflow error is the caller's (a 4xx): a missing workflow or
/// task is 404, someone else's workflow 403, and an id, run type, cron
/// expression or schedule field that does not read is 400.
pub proof fn law_workflow_errors_answer_by_fault(e: WorkflowServiceError)
    ensures
        e is Database ==> e.status() == 500,
        !(e is Database) ==> 400 <= e.status() <= 499,
        (e is WorkflowNotFound || e is TaskNotFound) ==> e.status() == 404,
        e is NotWorkflowOwner ==> e.status() == 403,
        (e is InvalidWorkflowId || e is InvalidUserId || e is UnsupportedRunType
            || e is InvalidCronExpression || e is MissingScheduleField || e is InvalidScheduleTime)
            ==> e.status() == 400,
{
}

} // verus!

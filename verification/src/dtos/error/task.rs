//! What can go wrong in the task service.
//!
//! This describes the problem in the language of the domain and nothing
//! else. It carries no status codes and knows nothing about HTTP, so the same
//! error reads the same whether it surfaced through a request handler, the
//! runner, or a background job. Turning one of these into a response is the
//! job of `error_response`, which follows `crate::handlers::errors`.
use vstd::prelude::*;

use crate::handlers::errors::{
    BAD_REQUEST, ErrorReply, FORBIDDEN, NOT_FOUND, client_error, internal_error,
    is_client_error, is_internal_error,
};
use crate::text::{concat2, concat3};

verus! {

#[derive(Debug, PartialEq, Eq)]
pub enum TaskServiceError {
    TaskNotFound,
    /// The caller is authenticated, but the task belongs to someone else.
    NotTaskOwner,
    InvalidTaskId(String),
    InvalidUserId(String),
    InvalidJsonField { field: &'static str },
    /// A database failure, held as the text of the database error.
    Database(String),
}

impl TaskServiceError {
    /// The error's message.
    pub open spec fn message(self) -> Seq<char> {
        match self {
            TaskServiceError::TaskNotFound => "task not found"@,
            TaskServiceError::NotTaskOwner => "this "@ + "task belongs to another user"@,
            TaskServiceError::InvalidTaskId(id) => "'"@ + id@ + "' is not a valid task id"@,
            TaskServiceError::InvalidUserId(id) => "'"@ + id@ + "' is not a valid user id"@,
            TaskServiceError::InvalidJsonField { field } => "the "@ + field@
                + " field is not valid json"@,
            TaskServiceError::Database(e) => "database error: "@ + e@,
        }
    }

    /// The status the error answers with; 500 marks a failure on our side.
    pub open spec fn status(self) -> u16 {
        match self {
            TaskServiceError::TaskNotFound => 404,
            TaskServiceError::NotTaskOwner => 403,
            TaskServiceError::Database(_) => 500,
            _ => 400,
        }
    }

    pub fn to_string(&self) -> (s: String)
        ensures
            s@ == self.message(),
    {
        match self {
            TaskServiceError::TaskNotFound => String::from_str("task not found"),
            TaskServiceError::NotTaskOwner => concat2("this ", "task belongs to another user"),
            TaskServiceError::InvalidTaskId(id) => concat3("'", id.as_str(), "' is not a valid task id"),
            TaskServiceError::InvalidUserId(id) => concat3("'", id.as_str(), "' is not a valid user id"),
            TaskServiceError::InvalidJsonField { field } => concat3("the ", field, " field is not valid json"),
            TaskServiceError::Database(e) => concat2("database error: ", e.as_str()),
        }
    }

    /// The response: the message for the caller's own mistakes, a flat
    /// internal error (with the database error's text on the log line only)
    /// for a database failure.
    pub fn error_response(&self) -> (r: ErrorReply)
        ensures
            r.status == self.status(),
            self.status() != 500 ==> is_client_error(r, self.status(), self.message()),
            self matches TaskServiceError::Database(e) ==> is_internal_error(r, e@),
    {
        match self {
            TaskServiceError::TaskNotFound => client_error(NOT_FOUND, self.to_string()),
            TaskServiceError::NotTaskOwner => client_error(FORBIDDEN, self.to_string()),
            TaskServiceError::InvalidTaskId(_)
            | TaskServiceError::InvalidUserId(_)
            | TaskServiceError::InvalidJsonField { .. } => client_error(BAD_REQUEST, self.to_string()),
            TaskServiceError::Database(e) => internal_error(e.clone()),
        }
    }
}

/// Who is at fault decides the answer: a database failure is ours (500);
/// every other task error is the caller's (a 4xx): a missing task is 404,
/// someone else's task 403, and an id or JSON field that does not read is
/// 400.
pub proof fn law_task_errors_answer_by_fault(e: TaskServiceError)
    ensures
        e is Database ==> e.status() == 500,
        !(e is Database) ==> 400 <= e.status() <= 499,
        e is TaskNotFound ==> e.status() == 404,
        e is NotTaskOwner ==> e.status() == 403,
        (e is InvalidTaskId || e is InvalidUserId || e is InvalidJsonField) ==> e.status() == 400,
{
}

} // verus!

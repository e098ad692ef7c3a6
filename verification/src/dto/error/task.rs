//! What can go wrong in the task service.
use vstd::prelude::*;

use crate::dtos::error::{ApiError, internal_error_message};
use crate::handlers::errors::{ErrorReply, plain_reply};
use crate::text::concat2;

verus! {

#[derive(Debug, PartialEq, Eq)]
pub enum TaskServiceError {
    /// A database failure, held as the text of the database error.
    DatabaseError(String),
    TaskNotFound,
    ServiceError,
    Unauthorized,
}

impl TaskServiceError {
    /// The error's message.
    pub open spec fn message(self) -> Seq<char> {
        match self {
            TaskServiceError::DatabaseError(e) => "Database error: "@ + e@,
            TaskServiceError::TaskNotFound => "Task not found"@,
            TaskServiceError::ServiceError => "Service error"@,
            TaskServiceError::Unauthorized => "You cannot perform this action on a task that does not belong to you"@,
        }
    }

    /// The status the error answers with; 500 marks a failure on our side.
    pub open spec fn status(self) -> u16 {
        match self {
            TaskServiceError::DatabaseError(..) => 500,
            TaskServiceError::TaskNotFound => 404,
            TaskServiceError::ServiceError => 500,
            TaskServiceError::Unauthorized => 403,
        }
    }

    pub fn to_string(&self) -> (s: String)
        ensures
            s@ == self.message(),
    {
        match self {
            TaskServiceError::DatabaseError(e) => concat2("Database error: ", e.as_str()),
            TaskServiceError::TaskNotFound => String::from_str("Task not found"),
            TaskServiceError::ServiceError => String::from_str("Service error"),
            TaskServiceError::Unauthorized => String::from_str("You cannot perform this action on a task that does not belong to you"),
        }
    }

    /// The response: the message for the caller's mistakes and for a service
    /// error, the generic internal message for every other failure on our side.
    pub fn error_response(&self) -> (r: ErrorReply)
        ensures
            r.status == self.status(),
            r.log_context is None,
            self.shows_message() ==> r.body.error@ == self.message(),
            !self.shows_message() ==> r.body.error@ == internal_error_message(),
    {
        match self {
            TaskServiceError::DatabaseError(..) => plain_reply(500, ApiError::internal_server_error().error),
            TaskServiceError::TaskNotFound => plain_reply(404, self.to_string()),
            TaskServiceError::ServiceError => plain_reply(500, self.to_string()),
            TaskServiceError::Unauthorized => plain_reply(403, self.to_string()),
        }
    }

    /// Whether the response shows the message (or the generic internal one).
    pub open spec fn shows_message(self) -> bool {
        match self {
            TaskServiceError::DatabaseError(..) => false,
            TaskServiceError::TaskNotFound => true,
            TaskServiceError::ServiceError => true,
            TaskServiceError::Unauthorized => true,
        }
    }
}

/// Who is at fault decides the status: a database or service failure is ours
/// (500); a missing task is 404 and someone else's task 403.
pub proof fn law_task_errors_answer_by_fault(e: TaskServiceError)
    ensures
        (e is DatabaseError || e is ServiceError) <==> e.status() == 500,
        !(e is DatabaseError || e is ServiceError) ==> 400 <= e.status() <= 499,
        e is TaskNotFound ==> e.status() == 404,
        e is Unauthorized ==> e.status() == 403,
{
}

} // verus!

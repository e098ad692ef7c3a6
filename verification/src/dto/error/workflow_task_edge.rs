//! What can go wrong when wiring one workflow step to another.
use vstd::prelude::*;

use crate::dtos::error::{ApiError, internal_error_message};
use crate::handlers::errors::{ErrorReply, plain_reply};
use crate::text::concat2;

verus! {

#[derive(Debug, PartialEq, Eq)]
pub enum WorkflowTaskEdgeServiceError {
    /// A database failure, held as the text of the database error.
    DatabaseError(String),
    EdgeNotFound,
    InvalidStep,
    DuplicateEdge,
    SelfLoop,
    WorkflowNotFound,
    WorkflowNotOwned,
    ServiceError,
    WorkflowTaskNotFound,
}

impl WorkflowTaskEdgeServiceError {
    /// The error's message.
    pub open spec fn message(self) -> Seq<char> {
        match self {
            WorkflowTaskEdgeServiceError::DatabaseError(e) => "Database error: "@ + e@,
            WorkflowTaskEdgeServiceError::EdgeNotFound => "Edge not found"@,
            WorkflowTaskEdgeServiceError::InvalidStep => "One or both steps do not exist in this workflow"@,
            WorkflowTaskEdgeServiceError::DuplicateEdge => "Edge already exists between these steps"@,
            WorkflowTaskEdgeServiceError::SelfLoop => "A task cannot have an edge to itself"@,
            WorkflowTaskEdgeServiceError::WorkflowNotFound => "Workflow not found"@,
            WorkflowTaskEdgeServiceError::WorkflowNotOwned => "You do not own this workflow"@,
            WorkflowTaskEdgeServiceError::ServiceError => "An unexpected error occurred. Please try again later."@,
            WorkflowTaskEdgeServiceError::WorkflowTaskNotFound => "Workflow task not found"@,
        }
    }

    /// The status the error answers with; 500 marks a failure on our side.
    pub open spec fn status(self) -> u16 {
        match self {
            WorkflowTaskEdgeServiceError::DatabaseError(..) => 500,
            WorkflowTaskEdgeServiceError::EdgeNotFound => 404,
            WorkflowTaskEdgeServiceError::InvalidStep => 400,
            WorkflowTaskEdgeServiceError::DuplicateEdge => 409,
            WorkflowTaskEdgeServiceError::SelfLoop => 400,
            WorkflowTaskEdgeServiceError::WorkflowNotFound => 404,
            WorkflowTaskEdgeServiceError::WorkflowNotOwned => 403,
            WorkflowTaskEdgeServiceError::ServiceError => 500,
            WorkflowTaskEdgeServiceError::WorkflowTaskNotFound => 404,
        }
    }

    pub fn to_string(&self) -> (s: String)
        ensures
            s@ == self.message(),
    {
        match self {
            WorkflowTaskEdgeServiceError::DatabaseError(e) => concat2("Database error: ", e.as_str()),
            WorkflowTaskEdgeServiceError::EdgeNotFound => String::from_str("Edge not found"),
            WorkflowTaskEdgeServiceError::InvalidStep => String::from_str("One or both steps do not exist in this workflow"),
            WorkflowTaskEdgeServiceError::DuplicateEdge => String::from_str("Edge already exists between these steps"),
            WorkflowTaskEdgeServiceError::SelfLoop => String::from_str("A task cannot have an edge to itself"),
            WorkflowTaskEdgeServiceError::WorkflowNotFound => String::from_str("Workflow not found"),
            WorkflowTaskEdgeServiceError::WorkflowNotOwned => String::from_str("You do not own this workflow"),
            WorkflowTaskEdgeServiceError::ServiceError => String::from_str("An unexpected error occurred. Please try again later."),
            WorkflowTaskEdgeServiceError::WorkflowTaskNotFound => String::from_str("Workflow task not found"),
        }
    }

    /// The response: the message for the caller's mistakes and for a service
    /// error, the generic internal message for every other failure on our side.
    pub fn error_response(&self) -> (r: ErrorReply)
        ensures
            r.status == self.status(),
            r.log_context is None,
            self.shows_message() ==> r.body.error@ == self.message(),
            !self.shows_message() ==> r.body.error@ == internal_error_message(),
    {
        match self {
            WorkflowTaskEdgeServiceError::DatabaseError(..) => plain_reply(500, ApiError::internal_server_error().error),
            WorkflowTaskEdgeServiceError::EdgeNotFound => plain_reply(404, self.to_string()),
            WorkflowTaskEdgeServiceError::InvalidStep => plain_reply(400, self.to_string()),
            WorkflowTaskEdgeServiceError::DuplicateEdge => plain_reply(409, self.to_string()),
            WorkflowTaskEdgeServiceError::SelfLoop => plain_reply(400, self.to_string()),
            WorkflowTaskEdgeServiceError::WorkflowNotFound => plain_reply(404, self.to_string()),
            WorkflowTaskEdgeServiceError::WorkflowNotOwned => plain_reply(403, self.to_string()),
            WorkflowTaskEdgeServiceError::ServiceError => plain_reply(500, self.to_string()),
            WorkflowTaskEdgeServiceError::WorkflowTaskNotFound => plain_reply(404, self.to_string()),
        }
    }

    /// Whether the response shows the message (or the generic internal one).
    pub open spec fn shows_message(self) -> bool {
        match self {
            WorkflowTaskEdgeServiceError::DatabaseError(..) => false,
            WorkflowTaskEdgeServiceError::EdgeNotFound => true,
            WorkflowTaskEdgeServiceError::InvalidStep => true,
            WorkflowTaskEdgeServiceError::DuplicateEdge => true,
            WorkflowTaskEdgeServiceError::SelfLoop => true,
            WorkflowTaskEdgeServiceError::WorkflowNotFound => true,
            WorkflowTaskEdgeServiceError::WorkflowNotOwned => true,
            WorkflowTaskEdgeServiceError::ServiceError => true,
            WorkflowTaskEdgeServiceError::WorkflowTaskNotFound => true,
        }
    }
}

/// Who is at fault decides the status: a database or service failure is ours
/// (500); a missing edge, workflow or step is 404, someone else's workflow
/// 403, a repeated edge 409, and a wrong step or a self loop 400.
pub proof fn law_edge_errors_answer_by_fault(e: WorkflowTaskEdgeServiceError)
    ensures
        (e is DatabaseError || e is ServiceError) <==> e.status() == 500,
        !(e is DatabaseError || e is ServiceError) ==> 400 <= e.status() <= 499,
        (e is EdgeNotFound || e is WorkflowNotFound || e is WorkflowTaskNotFound) ==> e.status() == 404,
        e is WorkflowNotOwned ==> e.status() == 403,
        e is DuplicateEdge ==> e.status() == 409,
        (e is InvalidStep || e is SelfLoop) ==> e.status() == 400,
{
}

} // verus!

//! What can go wrong when wiring one workflow step to another.
//!
//! These edges are the DAG, so most of what can go wrong here is a graph
//! integrity problem rather than a lookup failure. Domain language only, no
//! status codes; `error_response` turns one into a response.
use vstd::prelude::*;

use crate::handlers::errors::{
    ErrorReply, client_error, internal_error, is_client_error, is_internal_error,
};
use crate::text::{concat2, concat3};

verus! {

#[derive(Debug, PartialEq, Eq)]
pub enum WorkflowTaskEdgeServiceError {
    EdgeNotFound,
    WorkflowNotFound,
    WorkflowTaskNotFound,
    NotWorkflowOwner,
    /// One or both endpoints of the edge are steps of a different workflow.
    /// Allowing this would let a graph span workflows, which nothing supports.
    StepOutsideWorkflow,
    DuplicateEdge,
    SelfLoop,
    /// Adding this edge would close a cycle, and a cyclic graph has no valid
    /// execution order.
    CycleDetected,
    InvalidId(String),
    /// A database failure, held as the text of the database error.
    Database(String),
}

impl WorkflowTaskEdgeServiceError {
    /// The error's message.
    pub open spec fn message(self) -> Seq<char> {
        match self {
            WorkflowTaskEdgeServiceError::EdgeNotFound => "edge not found"@,
            WorkflowTaskEdgeServiceError::WorkflowNotFound => "workflow not found"@,
            WorkflowTaskEdgeServiceError::WorkflowTaskNotFound => "workflow task not found"@,
            WorkflowTaskEdgeServiceError::NotWorkflowOwner => "this workflow belongs to another user"@,
            WorkflowTaskEdgeServiceError::StepOutsideWorkflow => "both steps must belong to this workflow"@,
            WorkflowTaskEdgeServiceError::DuplicateEdge => "an edge already connects these two steps"@,
            WorkflowTaskEdgeServiceError::SelfLoop => "a step cannot depend on itself"@,
            WorkflowTaskEdgeServiceError::CycleDetected => "this edge would create a cycle in the workflow"@,
            WorkflowTaskEdgeServiceError::InvalidId(id) => "'"@ + id@ + "' is not a valid id"@,
            WorkflowTaskEdgeServiceError::Database(e) => "database error: "@ + e@,
        }
    }

    /// The status the error answers with; 500 marks a failure on our side.
    pub open spec fn status(self) -> u16 {
        match self {
            WorkflowTaskEdgeServiceError::EdgeNotFound => 404,
            WorkflowTaskEdgeServiceError::WorkflowNotFound => 404,
            WorkflowTaskEdgeServiceError::WorkflowTaskNotFound => 404,
            WorkflowTaskEdgeServiceError::NotWorkflowOwner => 403,
            WorkflowTaskEdgeServiceError::StepOutsideWorkflow => 400,
            WorkflowTaskEdgeServiceError::DuplicateEdge => 409,
            WorkflowTaskEdgeServiceError::SelfLoop => 400,
            WorkflowTaskEdgeServiceError::CycleDetected => 400,
            WorkflowTaskEdgeServiceError::InvalidId(..) => 400,
            WorkflowTaskEdgeServiceError::Database(..) => 500,
        }
    }

    pub fn to_string(&self) -> (s: String)
        ensures
            s@ == self.message(),
    {
        match self {
            WorkflowTaskEdgeServiceError::EdgeNotFound => String::from_str("edge not found"),
            WorkflowTaskEdgeServiceError::WorkflowNotFound => String::from_str("workflow not found"),
            WorkflowTaskEdgeServiceError::WorkflowTaskNotFound => String::from_str("workflow task not found"),
            WorkflowTaskEdgeServiceError::NotWorkflowOwner => String::from_str("this workflow belongs to another user"),
            WorkflowTaskEdgeServiceError::StepOutsideWorkflow => String::from_str("both steps must belong to this workflow"),
            WorkflowTaskEdgeServiceError::DuplicateEdge => String::from_str("an edge already connects these two steps"),
            WorkflowTaskEdgeServiceError::SelfLoop => String::from_str("a step cannot depend on itself"),
            WorkflowTaskEdgeServiceError::CycleDetected => String::from_str("this edge would create a cycle in the workflow"),
            WorkflowTaskEdgeServiceError::InvalidId(id) => concat3("'", id.as_str(), "' is not a valid id"),
            WorkflowTaskEdgeServiceError::Database(e) => concat2("database error: ", e.as_str()),
        }
    }

    /// The response: the message for the caller's own mistakes, a flat internal
    /// error for a failure on our side, whose cause goes onto the log line only.
    pub fn error_response(&self) -> (r: ErrorReply)
        ensures
            r.status == self.status(),
            self.status() != 500 ==> is_client_error(r, self.status(), self.message()),
            self matches WorkflowTaskEdgeServiceError::Database(e) ==> is_internal_error(r, e@),
    {
        match self {
            WorkflowTaskEdgeServiceError::EdgeNotFound => client_error(404, self.to_string()),
            WorkflowTaskEdgeServiceError::WorkflowNotFound => client_error(404, self.to_string()),
            WorkflowTaskEdgeServiceError::WorkflowTaskNotFound => client_error(404, self.to_string()),
            WorkflowTaskEdgeServiceError::NotWorkflowOwner => client_error(403, self.to_string()),
            WorkflowTaskEdgeServiceError::StepOutsideWorkflow => client_error(400, self.to_string()),
            WorkflowTaskEdgeServiceError::DuplicateEdge => client_error(409, self.to_string()),
            WorkflowTaskEdgeServiceError::SelfLoop => client_error(400, self.to_string()),
            WorkflowTaskEdgeServiceError::CycleDetected => client_error(400, self.to_string()),
            WorkflowTaskEdgeServiceError::InvalidId(..) => client_error(400, self.to_string()),
            WorkflowTaskEdgeServiceError::Database(e) => internal_error(e.clone()),
        }
    }
}

/// Who is at fault decides the answer: a database failure is ours (500);
/// every other edge error is the caller's (a 4xx): a missing edge, workflow
/// or step is 404, someone else's workflow 403, a repeated edge 409, and a
/// graph described wrongly (a step of another workflow, a self loop, a
/// cycle) or an id that does not read is 400.
pub proof fn law_edge_errors_answer_by_fault(e: WorkflowTaskEdgeServiceError)
    ensures
        e is Database ==> e.status() == 500,
        !(e is Database) ==> 400 <= e.status() <= 499,
        (e is EdgeNotFound || e is WorkflowNotFound || e is WorkflowTaskNotFound) ==> e.status() == 404,
        e is NotWorkflowOwner ==> e.status() == 403,
        e is DuplicateEdge ==> e.status() == 409,
        (e is StepOutsideWorkflow || e is SelfLoop || e is CycleDetected || e is InvalidId)
            ==> e.status() == 400,
{
}

} // verus!

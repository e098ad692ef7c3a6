//! Edges between the steps of a workflow: the request that wires two steps
//! and the response that shows an edge.
use vstd::prelude::*;

use crate::dto::RequestValidateTrait;
use crate::dto::error::ValidationError;
use crate::dtos::error::validation_error;
use crate::ids::{uuid_text, uuid_to_text};
use crate::text::text_eq;
use crate::timestamps::UtcTimestamp;

verus! {

pub struct WorkflowTaskEdgeRequest {
    pub from_task_id: String,
    pub to_task_id: String,
}

impl RequestValidateTrait for WorkflowTaskEdgeRequest {
    /// A step cannot depend on itself: the two ends must differ.
    fn validate(&self) -> (r: Result<(), ValidationError>)
        ensures
            self.from_task_id@ == self.to_task_id@ ==> (r matches Err(e) && e.field@
                == "from_task_id/to_task_id"@ && e.message@
                == "from_task_id and to_task_id cannot be the same"@),
            self.from_task_id@ != self.to_task_id@ ==> r is Ok,
    {
        if text_eq(self.from_task_id.as_str(), self.to_task_id.as_str()) {
            return Err(
                validation_error(
                    "from_task_id/to_task_id",
                    "from_task_id and to_task_id cannot be the same",
                ),
            );
        }
        Ok(())
    }
}

/// A stored edge, with its identifiers as 128-bit values.
pub struct WorkflowTaskEdgeRow {
    pub id: u128,
    pub workflow_id: u128,
    pub from_task_id: u128,
    pub to_task_id: u128,
    pub date_created: UtcTimestamp,
    pub date_updated: UtcTimestamp,
}

#[derive(Debug, PartialEq, Eq)]
pub struct WorkflowTaskEdgeResponse {
    pub id: String,
    pub from_task_id: String,
    pub to_task_id: String,
}

impl WorkflowTaskEdgeResponse {
    /// Shows a stored edge: its id and its two ends as hyphenated text.
    pub fn from_workflow_task_edge_row(edge: WorkflowTaskEdgeRow) -> (r: WorkflowTaskEdgeResponse)
        ensures
            r.id@ == uuid_text(edge.id),
            r.from_task_id@ == uuid_text(edge.from_task_id),
            r.to_task_id@ == uuid_text(edge.to_task_id),
    {
        WorkflowTaskEdgeResponse {
            id: uuid_to_text(edge.id),
            from_task_id: uuid_to_text(edge.from_task_id),
            to_task_id: uuid_to_text(edge.to_task_id),
        }
    }
}

#[derive(Debug, PartialEq, Eq)]
pub struct DeleteWorkflowTaskEdgeResponse {
    pub message: String,
}

} // verus!

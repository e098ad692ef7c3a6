pub mod error;
pub mod user;
pub mod workflow_task_edge;

use vstd::prelude::*;

use crate::dto::error::ValidationError;

verus! {

/// A request body that checks its own fields before any work is done.
pub trait RequestValidateTrait {
    fn validate(&self) -> Result<(), ValidationError>;
}

} // verus!

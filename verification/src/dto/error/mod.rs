pub mod task;
pub mod user;
pub mod workflow;
pub mod workflow_task;
pub mod workflow_task_edge;

pub use crate::dtos::error::{ApiError, ValidationError};

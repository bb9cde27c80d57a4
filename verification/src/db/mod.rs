//! Data types stored by the pipeline manager.

pub mod pipeline_id;
pub mod storage;

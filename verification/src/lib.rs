//! Pipeline manager: the errors that the pipeline runner reports, the
//! decisions that the HTTP API makes around its responses, and the
//! program updates that the storage layer is asked to perform.

pub mod api;
pub mod db;
pub mod error;
pub mod runner;

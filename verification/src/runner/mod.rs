pub mod error;
pub mod timeout;

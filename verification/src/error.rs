//! Errors of the pipeline manager's HTTP API.

use vstd::prelude::*;

verus! {

/// Errors of the pipeline manager met while reading a request's path.
#[derive(Debug)]
pub enum ManagerError {
    /// The path has no parameter of this name.
    MissingUrlEncodedParam { param: &'static str },
    /// The parameter's value is not a valid name.
    InvalidNameParam { value: String, error: String },
}

} // verus!

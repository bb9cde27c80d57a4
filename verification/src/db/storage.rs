//! The updates of stored programs that the storage layer is asked for.

use vstd::prelude::*;

verus! {

/// Version of a program: a number that grows each time its core fields change.
#[derive(Clone, Copy, Debug, PartialEq, Eq, Structural)]
pub struct Version(pub i64);

/// The arguments of an update of a stored program. Each field that is
/// `Some` is written; the others are left as they are. A `guard` makes the
/// update happen only if the program's current version equals it.
#[derive(Debug)]
pub struct ProgramUpdate<Status, Schema> {
    pub program_name: Option<String>,
    pub program_description: Option<String>,
    pub program_code: Option<String>,
    pub status: Option<Status>,
    pub schema: Option<Schema>,
    pub guard: Option<Version>,
}

impl<Status, Schema> ProgramUpdate<Status, Schema> {
    /// The update that sets the program's schema, and nothing else, whatever
    /// the program's version. It follows a successful SQL compilation.
    pub fn for_schema(schema: Schema) -> (u: Self)
        ensures
            u.program_name is None,
            u.program_description is None,
            u.program_code is None,
            u.status is None,
            u.schema == Some(schema),
            u.guard is None,
    {
        ProgramUpdate {
            program_name: None,
            program_description: None,
            program_code: None,
            status: None,
            schema: Some(schema),
            guard: None,
        }
    }

    /// The update that sets the program's status, and nothing else, provided
    /// that the program's version is still `expected_version`.
    pub fn for_status_guarded(expected_version: Version, status: Status) -> (u: Self)
        ensures
            u.program_name is None,
            u.program_description is None,
            u.program_code is None,
            u.status == Some(status),
            u.schema is None,
            u.guard == Some(expected_version),
    {
        ProgramUpdate {
            program_name: None,
            program_description: None,
            program_code: None,
            status: Some(status),
            schema: None,
            guard: Some(expected_version),
        }
    }
}

/// What an update of a program through the storage's default methods
/// answers, given what `update_program` answered: success, without the new
/// version, or the same error.
pub fn update_outcome<E>(r: Result<Version, E>) -> (out: Result<(), E>)
    ensures
        r is Ok <==> out is Ok,
        r matches Err(e) ==> out == Err::<(), E>(e),
{
    match r {
        Ok(_) => Ok(()),
        Err(e) => Err(e),
    }
}

} // verus!

use pipeline_manager::db::storage::{update_outcome, ProgramUpdate, Version};

#[test]
fn schema_update_writes_only_the_schema() {
    let u: ProgramUpdate<u8, &str> = ProgramUpdate::for_schema("schema");
    assert_eq!(u.program_name, None);
    assert_eq!(u.program_description, None);
    assert_eq!(u.program_code, None);
    assert_eq!(u.status, None);
    assert_eq!(u.schema, Some("schema"));
    assert_eq!(u.guard, None);
}

#[test]
fn status_update_is_guarded_by_the_version() {
    let u: ProgramUpdate<&str, u8> = ProgramUpdate::for_status_guarded(Version(7), "pending");
    assert_eq!(u.program_name, None);
    assert_eq!(u.program_description, None);
    assert_eq!(u.program_code, None);
    assert_eq!(u.status, Some("pending"));
    assert_eq!(u.schema, None);
    assert_eq!(u.guard, Some(Version(7)));
}

#[test]
fn update_outcome_drops_the_version_and_keeps_the_error() {
    let ok: Result<(), &str> = update_outcome(Ok(Version(3)));
    assert_eq!(ok, Ok(()));
    let err: Result<(), &str> = update_outcome(Err("conflict"));
    assert_eq!(err, Err("conflict"));
}

use tauri_interop::bootstrap::{bootstrap_fetched, bootstrap_start, get_command_name, read_field, EventError};

#[test]
fn read_command_name() {
    assert_eq!(get_command_name("TestState", "Foo"), "get_TestState_Foo");
}

#[test]
fn read_field_answers_or_reports_missing_state() {
    assert_eq!(read_field(Some(3), "TestState").unwrap(), 3);
    match read_field::<i32>(None, "TestState") {
        Err(EventError::StateIsNotRegistered(p)) => assert_eq!(p, "TestState"),
        _ => panic!("expected a missing state error"),
    }
}

#[test]
fn explicit_initial_value_skips_fetch() {
    let plan = bootstrap_start(Some(true), false);
    assert!(plan.shown);
    assert!(!plan.fetch_first);
}

#[test]
fn missing_initial_value_fetches_first() {
    let plan = bootstrap_start(None, String::from("default"));
    assert_eq!(plan.shown, "default");
    assert!(plan.fetch_first);
    assert_eq!(bootstrap_fetched(plan.shown, Ok("host".to_string())), "host");
    let failed = bootstrap_fetched("kept".to_string(), Err(EventError::StateIsNotRegistered("P".to_string())));
    assert_eq!(failed, "kept");
}

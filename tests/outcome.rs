use tauri_interop::outcome::{classify_reply, is_not_registered, settle_fallible, settle_value, InvokeOutcome};

#[test]
fn not_registered_diagnostic_is_recognised() {
    let r = classify_reply::<i32>(Err(7), Some("command ghost_cmd not found"));
    assert!(matches!(r, InvokeOutcome::NotRegistered));
}

#[test]
fn other_rejection_is_application_error() {
    let r = classify_reply::<i32>(Err(7), Some("permission denied"));
    assert!(matches!(r, InvokeOutcome::ApplicationError(7)));
    let r = classify_reply::<i32>(Err(8), None);
    assert!(matches!(r, InvokeOutcome::ApplicationError(8)));
}

#[test]
fn success_reply_stays_success() {
    let r = classify_reply::<i32>(Ok(3), Some("command ghost_cmd not found"));
    assert!(matches!(r, InvokeOutcome::Success(3)));
}

#[test]
fn diagnostic_inside_longer_text() {
    assert!(is_not_registered("Error: command greet_2 not found, sorry"));
    assert!(is_not_registered("command A not found"));
}

#[test]
fn diagnostic_needs_a_word_name() {
    assert!(!is_not_registered("command  not found"));
    assert!(!is_not_registered("command ghost-cmd not found"));
    assert!(!is_not_registered("command ghost_cmd"));
    assert!(!is_not_registered(""));
    assert!(!is_not_registered("Command ghost not found"));
}

#[test]
fn value_stub_settles() {
    let ok: InvokeOutcome<Result<i32, String>, ()> = InvokeOutcome::Success(Ok(5));
    assert_eq!(settle_value(ok, 0), Ok(5));
    let bad: InvokeOutcome<Result<i32, String>, ()> = InvokeOutcome::Success(Err("shape".to_string()));
    assert_eq!(settle_value(bad, 0), Err("shape".to_string()));
    let missing: InvokeOutcome<Result<i32, String>, ()> = InvokeOutcome::NotRegistered;
    assert_eq!(settle_value(missing, -1), Ok(-1));
    let failed: InvokeOutcome<Result<i32, String>, ()> = InvokeOutcome::ApplicationError(());
    assert_eq!(settle_value(failed, 9), Ok(9));
}

#[test]
fn fallible_stub_settles() {
    type O = InvokeOutcome<Result<i32, String>, Result<String, String>>;
    let ok: O = InvokeOutcome::Success(Ok(69));
    assert_eq!(settle_fallible(ok, 0), Ok(Ok(69)));
    let err: O = InvokeOutcome::ApplicationError(Ok("oh nyo".to_string()));
    assert_eq!(settle_fallible(err, 0), Ok(Err("oh nyo".to_string())));
    let missing: O = InvokeOutcome::NotRegistered;
    assert_eq!(settle_fallible(missing, 1), Ok(Ok(1)));
    let undecoded: O = InvokeOutcome::Success(Err("shape".to_string()));
    assert_eq!(settle_fallible(undecoded, 2), Err("shape".to_string()));
    let undecoded_failure: O = InvokeOutcome::ApplicationError(Err("bad error".to_string()));
    assert_eq!(settle_fallible(undecoded_failure, 3), Err("bad error".to_string()));
}

use tauri_interop::invoke::{determine_invoke, is_result, Binding, Invoke, ReturnShape, ShapeError, StubStep};

fn path(segments: &[&str]) -> ReturnShape {
    ReturnShape::Path(segments.iter().map(|s| s.to_string()).collect())
}

fn count(steps: &[StubStep], step: StubStep) -> usize {
    steps.iter().filter(|s| **s == step).count()
}

#[test]
fn unit_return_sync_is_fire_and_forget() {
    assert_eq!(determine_invoke(&ReturnShape::Unit, false).unwrap(), Invoke::Empty);
}

#[test]
fn unit_return_async_awaits_empty() {
    assert_eq!(determine_invoke(&ReturnShape::Unit, true).unwrap(), Invoke::AsyncEmpty);
}

#[test]
fn named_return_awaits_value() {
    assert_eq!(determine_invoke(&path(&["String"]), false).unwrap(), Invoke::Async);
    assert_eq!(determine_invoke(&path(&["Vec"]), true).unwrap(), Invoke::Async);
}

#[test]
fn result_return_is_fallible() {
    assert_eq!(determine_invoke(&path(&["Result"]), false).unwrap(), Invoke::AsyncResult);
    assert_eq!(determine_invoke(&path(&["std", "result", "Result"]), true).unwrap(), Invoke::AsyncResult);
}

#[test]
fn type_names_holding_the_marker_are_fallible() {
    assert_eq!(determine_invoke(&path(&["MyResult"]), false).unwrap(), Invoke::AsyncResult);
    assert!(is_result(&vec!["ResultLike".to_string()]));
    assert!(is_result(&vec!["io".to_string(), "Result".to_string()]));
    assert!(!is_result(&vec!["Outcome".to_string()]));
    assert!(!is_result(&vec!["result".to_string()]));
    assert!(!is_result(&Vec::new()));
}

#[test]
fn unsupported_return_fails_generation() {
    match determine_invoke(&ReturnShape::Other("(i32, i32)".to_string()), false) {
        Err(ShapeError::UnsupportedReturn(text)) => assert_eq!(text, "(i32, i32)"),
        other => panic!("unexpected {:?}", other),
    }
}

#[test]
fn every_stub_sends_once_and_awaits_iff_asynchronous() {
    for c in [Invoke::Empty, Invoke::AsyncEmpty, Invoke::Async, Invoke::AsyncResult] {
        let steps = c.steps();
        assert_eq!(count(&steps, StubStep::Send), 1);
        let awaits = if c == Invoke::Empty { 0 } else { 1 };
        assert_eq!(count(&steps, StubStep::Await), awaits);
        assert_eq!(c.as_async(), c != Invoke::Empty);
    }
}

#[test]
fn stub_call_names_binding_and_command() {
    let call = Invoke::Empty.as_expr("empty_invoke".to_string());
    assert_eq!(call.binding, Binding::FireAndForget);
    assert_eq!(call.command, "empty_invoke");
    assert!(!call.awaited);
    let call = Invoke::AsyncResult.as_expr("result_test".to_string());
    assert_eq!(call.binding, Binding::Catch);
    assert!(call.awaited);
    assert_eq!(Invoke::AsyncEmpty.binding(), Binding::Wait);
    assert_eq!(Invoke::Async.binding(), Binding::Return);
}

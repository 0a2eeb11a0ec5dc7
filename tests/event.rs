use tauri_interop::event::{prepare_event, prepare_field, AggregateDecl, AggregateField, DeriveError, EventStruct};
use tauri_interop::model::{NamingTestDefault, NamingTestEnum, TestState};
use tauri_interop::protocol::{
    emit, emit_all_next, emit_all_start, update, EmitStep, ListenError, ListenHandle, Payload,
};

#[derive(Debug, Clone, PartialEq)]
enum Value {
    Text(String),
    Flag(bool),
}

fn agg() -> EventStruct {
    let decl = AggregateDecl {
        name: "Agg".to_string(),
        fields: Some(vec![
            AggregateField { ident: Some("foo".to_string()) },
            AggregateField { ident: Some("bar".to_string()) },
        ]),
        auto_naming: None,
        mod_name: None,
    };
    prepare_event(&decl).unwrap()
}

/// Runs emit-all against a transport that answers each push with `answers`.
fn run_emit_all(desc: &EventStruct, values: &Vec<Value>, answers: &[Result<(), String>]) -> (Vec<(String, Value)>, Result<(), String>) {
    let mut pushed = Vec::new();
    let mut step: EmitStep<String> = emit_all_start(desc);
    loop {
        match step {
            EmitStep::Push(i) => {
                let e = emit(desc, values, i);
                pushed.push((e.event.clone(), e.payload.clone()));
                step = emit_all_next(desc, i, answers[i].clone());
            }
            EmitStep::Finished(r) => return (pushed, r),
        }
    }
}

#[test]
fn field_descriptors_carry_canonical_names() {
    let d = agg();
    assert_eq!(d.name, "Agg");
    assert_eq!(d.mod_name, "agg");
    assert_eq!(d.fields[0].field_name, "Foo");
    assert_eq!(d.fields[0].parent_field_name, "foo");
    assert_eq!(d.fields[0].event_name, "Agg::Foo");
    assert_eq!(d.fields[1].event_name, "Agg::Bar");
}

#[test]
fn test_naming() {
    let t = prepare_event(&TestState::declaration()).unwrap();
    assert_eq!(t.mod_name, "test_mod");
    let e = prepare_event(&NamingTestEnum::declaration()).unwrap();
    assert_eq!(e.mod_name, "NamingTestEnumField");
    let d = prepare_event(&NamingTestDefault::declaration()).unwrap();
    assert_eq!(d.mod_name, "naming_test_default");
    for s in [&t, &e, &d] {
        assert_eq!(s.fields[0].field_name, "Foo");
        assert_eq!(s.fields[1].field_name, "Bar");
    }
    assert_eq!(t.fields[1].event_name, "TestState::Bar");
}

#[test]
fn multi_word_fields_become_pascal_case() {
    let decl = AggregateDecl {
        name: "Settings".to_string(),
        fields: Some(vec![AggregateField { ident: Some("dark_mode".to_string()) }]),
        auto_naming: None,
        mod_name: None,
    };
    let d = prepare_event(&decl).unwrap();
    assert_eq!(d.fields[0].field_name, "DarkMode");
    assert_eq!(d.fields[0].event_name, "Settings::DarkMode");
    assert_eq!(prepare_field("P", "F"), "P::F");
}

#[test]
fn aggregate_errors() {
    let mut decl = AggregateDecl { name: "E".to_string(), fields: None, auto_naming: None, mod_name: None };
    assert!(matches!(prepare_event(&decl), Err(DeriveError::NotAStruct)));
    decl.fields = Some(Vec::new());
    assert!(matches!(prepare_event(&decl), Err(DeriveError::NoFields)));
    decl.fields = Some(vec![AggregateField { ident: None }]);
    assert!(matches!(prepare_event(&decl), Err(DeriveError::TupleStruct)));
    decl.fields = Some(vec![AggregateField { ident: Some("a".to_string()) }]);
    decl.auto_naming = Some("Shouty".to_string());
    match prepare_event(&decl) {
        Err(DeriveError::UnknownNaming(n)) => assert_eq!(n, "Shouty"),
        _ => panic!("expected an unknown naming error"),
    }
}

#[test]
fn emit_all_pushes_every_field_in_order() {
    let d = agg();
    let values = vec![Value::Text("x".to_string()), Value::Flag(true)];
    let (pushed, r) = run_emit_all(&d, &values, &[Ok(()), Ok(())]);
    assert_eq!(
        pushed,
        vec![("Agg::Foo".to_string(), Value::Text("x".to_string())), ("Agg::Bar".to_string(), Value::Flag(true))]
    );
    assert_eq!(r, Ok(()));
}

#[test]
fn emit_all_stops_at_first_failure() {
    let d = agg();
    let values = vec![Value::Text("x".to_string()), Value::Flag(true)];
    let (pushed, r) = run_emit_all(&d, &values, &[Err("closed".to_string()), Ok(())]);
    assert_eq!(pushed.len(), 1);
    assert_eq!(r, Err("closed".to_string()));
}

#[test]
fn update_assigns_even_when_push_fails() {
    let d = agg();
    let mut values = vec![Value::Text("x".to_string()), Value::Flag(false)];
    let step: EmitStep<String> = update(&d, &mut values, 1, Value::Flag(true));
    let i = match step {
        EmitStep::Push(i) => i,
        EmitStep::Finished(_) => panic!("expected a push"),
    };
    assert_eq!(i, 1);
    let e = emit(&d, &values, i);
    assert_eq!(e.event, "Agg::Bar");
    assert_eq!(*e.payload, Value::Flag(true));
    let push_result: Result<(), String> = Err("transport down".to_string());
    assert!(push_result.is_err());
    assert_eq!(values[1], Value::Flag(true));
}

#[test]
fn subscription_delivers_until_detached() {
    let mut h: ListenHandle<u32> = match ListenHandle::register("Agg::Bar", Ok(17), true) {
        Ok(h) => h,
        Err(_) => panic!("registration failed"),
    };
    assert_eq!(h.event(), "Agg::Bar");
    assert_eq!(*h.detach_fn(), 17);
    let mut calls = Vec::new();
    let envelope = Payload { payload: false, event: "Agg::Bar".to_string() };
    if let Some(v) = h.deliver(Ok(envelope), true) {
        calls.push(v);
    }
    assert_eq!(calls, vec![false]);
    assert!(h.detach_listen());
    assert!(!h.detach_listen());
    let late = Payload { payload: true, event: "Agg::Bar".to_string() };
    assert_eq!(h.deliver(Ok(late), false), None);
    assert_eq!(h.deliver(Err("garbled".to_string()), false), None);
    assert_eq!(calls.len(), 1);
}

#[test]
fn undecodable_payload_gives_fallback() {
    let h: ListenHandle<u32> = ListenHandle::register("Agg::Foo", Ok(1), true).ok().unwrap();
    assert_eq!(h.deliver::<String>(Err("not a string".to_string()), String::new()), Some(String::new()));
}

#[test]
fn registration_failures_are_surfaced() {
    assert!(matches!(ListenHandle::<u32>::register("e", Err(5), true), Err(ListenError::PromiseFailed(5))));
    assert!(matches!(ListenHandle::<u32>::register("e", Ok(6), false), Err(ListenError::NotAFunction(6))));
}

#[test]
fn sample_emit_pushes_foo_then_bar() {
    let d = prepare_event(&TestState::declaration()).unwrap();
    let mut s = TestState { foo: String::new(), bar: true };
    let order: Vec<&str> = tauri_interop::cmd::emit(&mut s).iter().map(|i| d.fields[*i].event_name.as_str()).collect();
    assert_eq!(order, vec!["TestState::Foo", "TestState::Bar"]);
    assert_eq!(s.foo, "bar");
    assert!(!s.bar);
}

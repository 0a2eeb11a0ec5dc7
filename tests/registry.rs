use tauri_interop::registry::{commands_with_mod_name, get_filtered_commands, CombineError, Registry};
use tauri_interop::text::{compare_text, get_separated_command};

fn s(v: &[&str]) -> Vec<String> {
    v.iter().map(|x| x.to_string()).collect()
}

fn paths(v: &[&[&str]]) -> Vec<Vec<String>> {
    v.iter().map(|p| s(p)).collect()
}

#[test]
fn collect_then_combine_round_trip() {
    let mut r = Registry::new();
    r.commands("cmd");
    r.command("greet");
    r.command("empty_invoke");
    let table = r.collect_commands();
    assert_eq!(table.fn_name, "get_handlers");
    assert_eq!(table.commands, s(&["empty_invoke", "greet"]));
    r.commands("other_cmd");
    r.command("stop_application");
    r.collect_commands();
    let combined = r.combine_handlers(paths(&[&["cmd"], &["model", "other_cmd"]])).unwrap();
    assert_eq!(combined.table.fn_name, "get_all_handlers");
    assert_eq!(
        combined.table.commands,
        s(&["cmd::empty_invoke", "cmd::greet", "other_cmd::stop_application"])
    );
    assert!(combined.omitted.is_empty());
    assert_eq!(combined.table.include_mods, paths(&[&["cmd"], &["model", "other_cmd"]]));
}

#[test]
fn combine_with_dangling_registration_fails() {
    let mut r = Registry::new();
    r.commands("cmd");
    r.command("greet");
    r.collect_commands();
    r.command("forgotten");
    match r.combine_handlers(paths(&[&["cmd"]])) {
        Err(CombineError::Dangling { names, no_commands }) => {
            assert_eq!(names, s(&["forgotten"]));
            assert!(!no_commands);
        }
        _ => panic!("expected a dangling error"),
    }
}

#[test]
fn combine_reports_dangling_and_empty_selection_together() {
    let mut r = Registry::new();
    r.commands("cmd");
    r.command("greet");
    r.collect_commands();
    r.command("forgotten");
    match r.combine_handlers(paths(&[&["elsewhere"]])) {
        Err(CombineError::Dangling { names, no_commands }) => {
            assert_eq!(names, s(&["forgotten"]));
            assert!(no_commands);
        }
        _ => panic!("expected a dangling error"),
    }
}

#[test]
fn combine_without_matching_namespace_fails() {
    let mut r = Registry::new();
    r.commands("cmd");
    r.command("greet");
    r.collect_commands();
    assert!(matches!(r.combine_handlers(paths(&[&["elsewhere"]])), Err(CombineError::NoCommands)));
    let empty = Registry::new();
    assert!(matches!(empty.combine_handlers(paths(&[&["cmd"]])), Err(CombineError::NoCommands)));
}

#[test]
fn combine_reports_omitted_namespaces() {
    let mut r = Registry::new();
    r.commands("cmd");
    r.command("greet");
    r.collect_commands();
    r.commands("naming_test_enum_field");
    r.command("get_NamingTestEnum_Foo");
    r.collect_commands();
    let combined = r.combine_handlers(paths(&[&["cmd"]])).unwrap();
    assert_eq!(combined.table.commands, s(&["cmd::greet"]));
    assert_eq!(combined.omitted, s(&["naming_test_enum_field::get_NamingTestEnum_Foo"]));
}

#[test]
fn unnamespaced_commands_are_not_combined() {
    let mut r = Registry::new();
    r.command("plain");
    let table = r.collect_commands();
    assert_eq!(table.commands, s(&["plain"]));
    assert!(table.include_mods.is_empty());
    assert!(matches!(r.combine_handlers(paths(&[&["plain"]])), Err(CombineError::NoCommands)));
}

#[test]
fn registering_twice_keeps_one_name_in_sorted_order() {
    let mut r = Registry::new();
    r.command("zeta");
    r.command("alpha");
    r.command("zeta");
    r.command("mid");
    assert_eq!(r.collect_commands().commands, s(&["alpha", "mid", "zeta"]));
    assert!(r.collect_commands().commands.is_empty());
}

#[test]
fn namespace_is_cleared_after_collect() {
    let mut r = Registry::new();
    r.commands("first");
    r.command("a");
    r.collect_commands();
    r.command("b");
    r.collect_commands();
    let combined = r.combine_handlers(paths(&[&["first"]])).unwrap();
    assert_eq!(combined.table.commands, s(&["first::a"]));
    assert_eq!(combined.omitted, s(&["b"]));
}

#[test]
fn qualifies_names_with_namespace() {
    assert_eq!(commands_with_mod_name("cmd", &s(&["a", "b"])), s(&["cmd::a", "cmd::b"]));
    assert!(commands_with_mod_name("cmd", &Vec::new()).is_empty());
}

#[test]
fn separates_qualified_names() {
    assert_eq!(get_separated_command("cmd::greet"), Some(("cmd".to_string(), "greet".to_string())));
    assert_eq!(get_separated_command("a::b::c"), Some(("a".to_string(), "b".to_string())));
    assert_eq!(get_separated_command("greet"), None);
    assert_eq!(get_separated_command("a:b"), None);
}

#[test]
fn filters_by_path_segments() {
    let all = s(&["cmd::a", "other::b", "plain", "test_mod::c"]);
    let kept = get_filtered_commands(&all, &paths(&[&["model", "test_mod"], &["cmd"]]));
    assert_eq!(kept, s(&["cmd::a", "test_mod::c"]));
}

#[test]
fn compares_texts_lexicographically() {
    assert!(compare_text("abc", "abd") < 0);
    assert!(compare_text("ab", "abc") < 0);
    assert!(compare_text("b", "abc") > 0);
    assert_eq!(compare_text("same", "same"), 0);
    assert!(compare_text("", "a") < 0);
}

use fnv::FnvHashMap;
use ion_shell::collections::Array;
use ion_shell::shell::{ArrayAction, ArrayEvent, Builtin, Select, Selection};
use ion_shell::{Shell, Variables};

fn strings(items: &[&str]) -> Vec<String> {
    items.iter().map(|item| item.to_string()).collect()
}

fn shell() -> Shell {
    Shell::new(FnvHashMap::default(), Variables::default())
}

fn shell_with_values() -> Shell {
    let mut shell = shell();
    shell
        .variables
        .arrays
        .insert("array".to_owned(), Array::from_strings(strings(&["a", "b", "c", "d", "e"])));
    shell.variables.arrays.insert("empty".to_owned(), Array::from_strings(Vec::new()));
    let mut map = FnvHashMap::default();
    map.insert("one".to_owned(), "1".to_owned());
    map.insert("two".to_owned(), "2".to_owned());
    map.insert("other".to_owned(), "2".to_owned());
    shell.variables.hashmaps.insert("map".to_owned(), map);
    let mut both = FnvHashMap::default();
    both.insert("key".to_owned(), "value".to_owned());
    shell.variables.arrays.insert("both".to_owned(), Array::from_strings(strings(&["x", "y"])));
    shell.variables.hashmaps.insert("both".to_owned(), both);
    shell
}

fn selected(shell: &Shell, name: &str, selection: Selection) -> Option<Vec<String>> {
    shell.select(name, selection).map(|array| array.as_slice().to_vec())
}

#[test]
fn fresh_shells_differ_in_one_mark_only() {
    let mut builtins = FnvHashMap::default();
    builtins.insert("cd".to_owned(), Builtin { id: 3 });
    let library = Shell::new(builtins.clone(), Variables::default());
    let binary = Shell::new_bin(builtins, Variables::default());
    assert!(library.is_library);
    assert!(!binary.is_library);
    for shell in [library, binary] {
        assert_eq!(shell.builtins.get("cd"), Some(&Builtin { id: 3 }));
        assert!(shell.functions.is_empty());
        assert!(!shell.has_context);
        assert_eq!(shell.previous_job, u32::MAX);
        assert_eq!(shell.previous_status, 0);
        assert_eq!(shell.flags, 0);
        assert!(shell.foreground.is_empty());
        assert!(!shell.is_background_shell);
        assert!(!shell.break_flow);
    }
}

#[test]
fn written_variable_is_read_back() {
    let mut shell = shell();
    assert_eq!(shell.get_var("name"), None);
    assert_eq!(shell.get_var_or_empty("name"), "");
    shell.set_var("name", "value");
    shell.set_var("other", "something");
    assert_eq!(shell.get_var("name"), Some("value".to_owned()));
    assert_eq!(shell.get_var_or_empty("name"), "value");
    assert_eq!(shell.get_var("other"), Some("something".to_owned()));
    shell.set_var("name", "again");
    assert_eq!(shell.get_var("name"), Some("again".to_owned()));
    assert_eq!(shell.get_var("other"), Some("something".to_owned()));
    assert!(shell.get_array("name").is_none());
}

#[test]
fn array_is_got_whole() {
    let shell = shell_with_values();
    assert_eq!(shell.get_array("array"), Some(&strings(&["a", "b", "c", "d", "e"])[..]));
    assert_eq!(shell.get_array("empty"), Some(&[][..]));
    assert_eq!(shell.get_array("map"), None);
    assert_eq!(shell.get_array("missing"), None);
}

#[test]
fn unquoted_variable_is_one_line() {
    let mut shell = shell();
    shell.set_var("text", "a\nb\n");
    assert_eq!(shell.variable("text", true), Some("a\nb\n".to_owned()));
    assert_eq!(shell.variable("text", false), Some("a b ".to_owned()));
    assert_eq!(shell.variable("missing", true), None);
    assert_eq!(shell.variable("missing", false), None);
}

#[test]
fn selection_takes_items_of_an_array() {
    let shell = shell_with_values();
    let all = Some(strings(&["a", "b", "c", "d", "e"]));
    assert_eq!(selected(&shell, "array", Selection::All), all);
    assert_eq!(selected(&shell, "array", Selection::Nothing), None);
    assert_eq!(selected(&shell, "array", Selection::Index(Some(0))), Some(strings(&["a"])));
    assert_eq!(selected(&shell, "array", Selection::Index(Some(4))), Some(strings(&["e"])));
    assert_eq!(selected(&shell, "array", Selection::Index(Some(5))), None);
    assert_eq!(selected(&shell, "array", Selection::Index(None)), None);
    assert_eq!(
        selected(&shell, "array", Selection::Range(Some((1, 3)))),
        Some(strings(&["b", "c", "d"]))
    );
    assert_eq!(
        selected(&shell, "array", Selection::Range(Some((3, usize::MAX)))),
        Some(strings(&["d", "e"]))
    );
    assert_eq!(selected(&shell, "array", Selection::Range(Some((2, 0)))), Some(Vec::new()));
    assert_eq!(selected(&shell, "array", Selection::Range(Some((5, 1)))), None);
    assert_eq!(selected(&shell, "array", Selection::Range(None)), None);
    assert_eq!(selected(&shell, "array", Selection::Key("a".to_owned())), None);
    assert_eq!(selected(&shell, "empty", Selection::All), Some(Vec::new()));
    assert_eq!(selected(&shell, "empty", Selection::Range(Some((0, 0)))), None);
    assert_eq!(selected(&shell, "missing", Selection::All), None);
}

#[test]
fn index_is_a_range_of_one() {
    let shell = shell_with_values();
    for position in 0..6 {
        assert_eq!(
            selected(&shell, "array", Selection::Index(Some(position))),
            selected(&shell, "array", Selection::Range(Some((position, 1))))
        );
    }
}

#[test]
fn ranges_join() {
    let shell = shell_with_values();
    let mut joined = selected(&shell, "array", Selection::Range(Some((1, 2)))).unwrap();
    joined.extend(selected(&shell, "array", Selection::Range(Some((3, 9)))).unwrap());
    assert_eq!(Some(joined), selected(&shell, "array", Selection::Range(Some((1, 11)))));
}

#[test]
fn selection_takes_values_of_a_map() {
    let shell = shell_with_values();
    let mut all = selected(&shell, "map", Selection::All).unwrap();
    all.sort();
    assert_eq!(all, strings(&["1", "2", "2"]));
    assert_eq!(
        selected(&shell, "map", Selection::Key("one".to_owned())),
        Some(strings(&["1"]))
    );
    assert_eq!(selected(&shell, "map", Selection::Key("none".to_owned())), Some(strings(&[""])));
    assert_eq!(selected(&shell, "map", Selection::Index(Some(0))), None);
    assert_eq!(selected(&shell, "map", Selection::Range(Some((0, 1)))), None);
    assert_eq!(selected(&shell, "map", Selection::Nothing), None);
}

#[test]
fn array_stands_before_the_map_of_its_name() {
    let shell = shell_with_values();
    assert_eq!(selected(&shell, "both", Selection::All), Some(strings(&["x", "y"])));
    assert_eq!(
        selected(&shell, "both", Selection::Key("key".to_owned())),
        Some(strings(&["value"]))
    );
    assert_eq!(selected(&shell, "both", Selection::Index(Some(7))), None);
}

#[test]
fn index_is_resolved_in_the_length_of_the_array() {
    let shell = shell_with_values();
    assert!(matches!(
        shell.array("array", ArrayEvent::Requested(Select::Index)),
        ArrayAction::ResolveIndex { length: 5 }
    ));
    assert!(matches!(
        shell.array("array", ArrayEvent::Requested(Select::Range)),
        ArrayAction::ResolveRange { length: 5 }
    ));
    assert!(matches!(
        shell.array("map", ArrayEvent::Requested(Select::Index)),
        ArrayAction::Return(None)
    ));
    assert!(matches!(
        shell.array("missing", ArrayEvent::Requested(Select::Range)),
        ArrayAction::Return(None)
    ));
    match shell.array("array", ArrayEvent::IndexResolved(Some(2))) {
        ArrayAction::Return(Some(found)) => assert_eq!(found.as_slice(), &strings(&["c"])[..]),
        _ => panic!("an item"),
    }
    match shell.array("array", ArrayEvent::RangeResolved(Some((0, 2)))) {
        ArrayAction::Return(Some(found)) => assert_eq!(found.as_slice(), &strings(&["a", "b"])[..]),
        _ => panic!("two items"),
    }
    match shell.array("map", ArrayEvent::Requested(Select::Key("two".to_owned()))) {
        ArrayAction::Return(Some(found)) => assert_eq!(found.as_slice(), &strings(&["2"])[..]),
        _ => panic!("a value"),
    }
    match shell.array("both", ArrayEvent::Requested(Select::All)) {
        ArrayAction::Return(Some(found)) => assert_eq!(found.as_slice(), &strings(&["x", "y"])[..]),
        _ => panic!("the array"),
    }
    assert!(matches!(
        shell.array("array", ArrayEvent::Requested(Select::Nothing)),
        ArrayAction::Return(None)
    ));
}

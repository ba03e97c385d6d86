use sgleam::gleam::{
    can_show, can_show_fn, find_imports, fn_type_to_string, fn_type_to_string_unbounds,
    follows_import, get_module, type_to_string, Import, Type,
};

fn named(name: &str, args: Vec<Type>) -> Type {
    Type::Named { name: name.to_string(), args }
}

fn var(id: u64) -> Type {
    Type::Var { id }
}

fn function(args: Vec<Type>, retrn: Type) -> Type {
    Type::Fn { args, retrn: Box::new(retrn) }
}

#[test]
fn named_types_are_written_with_their_arguments() {
    assert_eq!(type_to_string(&named("Int", vec![])), "Int");
    assert_eq!(type_to_string(&named("List", vec![named("String", vec![])])), "List(String)");
    assert_eq!(
        type_to_string(&named("Dict", vec![named("String", vec![]), named("List", vec![named("Int", vec![])])])),
        "Dict(String, List(Int))"
    );
}

#[test]
fn function_and_tuple_types_are_written() {
    let int = || named("Int", vec![]);
    assert_eq!(type_to_string(&function(vec![int(), int()], int())), "fn(Int, Int) -> Int");
    assert_eq!(type_to_string(&function(vec![], int())), "fn() -> Int");
    assert_eq!(type_to_string(&Type::Tuple { elems: vec![int(), named("Bool", vec![])] }), "#(Int, Bool)");
    assert_eq!(type_to_string(&Type::Tuple { elems: vec![] }), "#()");
    assert_eq!(fn_type_to_string(&vec![named("String", vec![])], &var(3)), "fn(String) -> a");
}

#[test]
fn variables_get_letters_in_the_order_in_which_they_first_come() {
    // list.filter_map
    let filter_map = function(
        vec![
            named("List", vec![var(40)]),
            function(vec![var(40)], named("Result", vec![var(12), var(99)])),
        ],
        named("List", vec![var(12)]),
    );
    assert_eq!(type_to_string(&filter_map), "fn(List(a), fn(a) -> Result(b, c)) -> List(b)");
    assert_eq!(type_to_string(&var(12)), "a");
    assert_eq!(type_to_string(&Type::Tuple { elems: vec![var(2), var(1), var(2), var(0)] }), "#(a, b, a, c)");
}

#[test]
fn the_numbering_goes_on_after_the_variables_that_are_known() {
    let mut unbounds = vec![7, 8];
    let text = fn_type_to_string_unbounds(&vec![var(8), var(5)], &var(7), &mut unbounds);
    assert_eq!(text, "fn(b, c) -> a");
    assert_eq!(unbounds, vec![7, 8, 5]);
    let text = fn_type_to_string_unbounds(&vec![], &var(5), &mut unbounds);
    assert_eq!(text, "fn() -> c");
    assert_eq!(unbounds, vec![7, 8, 5]);
}

#[test]
fn letters_go_on_after_z() {
    let elems: Vec<Type> = (0..28).map(var).collect();
    let text = type_to_string(&Type::Tuple { elems });
    assert!(text.starts_with("#(a, b, c, "));
    assert!(text.ends_with("y, z, {, |)"));
}

#[test]
fn a_type_with_too_many_variables_cannot_be_shown() {
    let limit = 0xD800 - 97;
    let fits: Vec<Type> = (0..limit).map(var).collect();
    assert!(can_show(&Type::Tuple { elems: fits }));
    let too_many: Vec<Type> = (0..limit + 1).map(var).collect();
    assert!(!can_show(&Type::Tuple { elems: too_many }));
    assert!(can_show(&named("Int", vec![])));
    let names: Vec<u64> = (0..limit).collect();
    assert!(can_show_fn(&vec![var(1)], &var(2), &names));
    assert!(!can_show_fn(&vec![var(1)], &var(limit + 5), &names));
}

#[test]
fn a_unit_is_found_by_its_name() {
    let names = vec!["gleam/io".to_string(), "repl1_1".to_string(), "repl1_1".to_string()];
    assert_eq!(get_module(&names, "repl1_1"), Some(1));
    assert_eq!(get_module(&names, "gleam/io"), Some(0));
    assert_eq!(get_module(&names, "repl1"), None);
    assert_eq!(get_module(&vec![], ""), None);
}

#[test]
fn the_files_of_a_program_are_each_taken_once() {
    assert!(follows_import("dir/b"));
    assert!(!follows_import("sgleam"));
    assert!(!follows_import("sgleam/check"));
    assert!(!follows_import("gleam/list"));
    assert!(follows_import("gleam"));
    assert!(follows_import("sgleamx"));

    let import = |module: &str| Import { module: module.to_string(), path: format!("{module}.gleam") };
    let mut search = find_imports(vec!["a.gleam".to_string(), "b.gleam".to_string(), "a.gleam".to_string()]);
    assert_eq!(search.next().as_deref(), Some("a.gleam"));
    search.add_imports(&vec![import("gleam/io"), import("c"), import("b"), import("sgleam/check")]);
    assert_eq!(search.next().as_deref(), Some("b.gleam"));
    search.add_imports(&vec![import("a"), import("dir/d"), import("sgleam")]);
    assert_eq!(search.next().as_deref(), Some("c.gleam"));
    search.add_imports(&vec![]);
    assert_eq!(search.next().as_deref(), Some("dir/d.gleam"));
    search.add_imports(&vec![import("c")]);
    assert_eq!(search.next(), None);
    assert_eq!(search.next(), None);
    assert_eq!(search.files(), vec!["a.gleam", "b.gleam", "c.gleam", "dir/d.gleam"]);
    assert_eq!(find_imports(vec![]).files(), Vec::<String>::new());
}

use sgleam::engine::MainFunction;
use sgleam::error::{
    color_choice, colour_forced, show_error, ColorChoice, GleamError, SgleamError,
};
use sgleam::gleam::Type;
use sgleam::run::{
    can_show_smain, command, get_main, get_smain, ignoring_message, is_user_module, Command, Request,
    module_of_path, path_verdict, user_modules, validade_path, PathVerdict, TypedFunction,
};

fn named(name: &str, args: Vec<Type>) -> Type {
    Type::Named { name: name.to_string(), args }
}

fn smain(arguments: Vec<Type>) -> TypedFunction {
    TypedFunction { supports_javascript: true, arguments, return_type: Type::Var { id: 1 } }
}

#[test]
fn smain_is_run_by_its_signature() {
    assert!(matches!(get_smain("m", Some(&smain(vec![]))), Ok(MainFunction::Smain)));
    let string = smain(vec![named("String", vec![])]);
    assert!(matches!(get_smain("m", Some(&string)), Ok(MainFunction::SmainStdin)));
    let lines = smain(vec![named("List", vec![named("String", vec![])])]);
    assert!(matches!(get_smain("m", Some(&lines)), Ok(MainFunction::SmainStdinLines)));
}

#[test]
fn a_wrong_smain_is_an_error() {
    match get_smain("dir/m", None) {
        Err(SgleamError::Gleam(GleamError::ModuleDoesNotHaveMainFunction { module })) => {
            assert_eq!(module, "dir/m")
        }
        other => panic!("{other:?}"),
    }
    let mut erlang_only = smain(vec![]);
    erlang_only.supports_javascript = false;
    match get_smain("m", Some(&erlang_only)) {
        Err(SgleamError::Gleam(GleamError::MainFunctionDoesNotSupportTarget { module })) => {
            assert_eq!(module, "m")
        }
        other => panic!("{other:?}"),
    }
    let int = smain(vec![named("Int", vec![])]);
    assert!(can_show_smain(&int));
    match get_smain("m", Some(&int)) {
        Err(SgleamError::InvalidSMain { module, signature }) => {
            assert_eq!(module, "m");
            assert_eq!(signature, "fn(Int) -> a");
        }
        other => panic!("{other:?}"),
    }
    let two = smain(vec![named("String", vec![]), Type::Var { id: 9 }]);
    match get_smain("m", Some(&two)) {
        Err(SgleamError::InvalidSMain { signature, .. }) => assert_eq!(signature, "fn(String, a) -> b"),
        other => panic!("{other:?}"),
    }
}

#[test]
fn main_is_run_where_there_is_no_smain() {
    assert!(matches!(get_main("m", None, Ok(())), Ok(MainFunction::Main)));
    assert!(matches!(get_main("m", Some(&smain(vec![])), Ok(())), Ok(MainFunction::Smain)));
    assert!(matches!(
        get_main("m", None, Err(GleamError::Other)),
        Err(SgleamError::Gleam(GleamError::Other))
    ));
    let mut erlang_only = smain(vec![]);
    erlang_only.supports_javascript = false;
    assert!(matches!(get_main("m", Some(&erlang_only), Ok(())), Ok(MainFunction::Main)));
    let int = smain(vec![named("Int", vec![])]);
    assert!(matches!(get_main("m", Some(&int), Ok(())), Err(SgleamError::InvalidSMain { .. })));
}

#[test]
fn the_units_of_the_libraries_are_not_the_users() {
    assert!(is_user_module("user"));
    assert!(is_user_module("gleam"));
    assert!(is_user_module("sgleamx/y"));
    assert!(!is_user_module("gleam/io"));
    assert!(!is_user_module("sgleam/check"));
    let names = ["gleam/io", "a", "sgleam/image", "dir/b", "gleam"].map(String::from).to_vec();
    assert_eq!(user_modules(&names), vec![1, 3, 4]);
}

#[test]
fn only_gleam_files_with_free_names_are_taken() {
    assert_eq!(path_verdict(Some("a"), Some("gleam")), PathVerdict::Valid);
    assert_eq!(path_verdict(Some("a"), Some("txt")), PathVerdict::NotGleamFile);
    assert_eq!(path_verdict(Some("a"), None), PathVerdict::NotGleamFile);
    assert_eq!(path_verdict(Some(""), Some("gleam")), PathVerdict::NotGleamFile);
    assert_eq!(path_verdict(None, Some("gleam")), PathVerdict::NotGleamFile);
    assert_eq!(path_verdict(Some("gleam"), Some("gleam")), PathVerdict::ReservedGleam);
    assert_eq!(path_verdict(Some("sgleam"), Some("gleam")), PathVerdict::ReservedSgleam);

    assert_eq!(validade_path("dir/user.gleam"), PathVerdict::Valid);
    assert_eq!(validade_path("user.tar.gleam"), PathVerdict::Valid);
    assert_eq!(validade_path("user.txt"), PathVerdict::NotGleamFile);
    assert_eq!(validade_path("user"), PathVerdict::NotGleamFile);
    assert_eq!(validade_path(".gleam"), PathVerdict::NotGleamFile);
    assert_eq!(validade_path("dir.gleam/.."), PathVerdict::NotGleamFile);
    assert_eq!(validade_path("dir/gleam.gleam"), PathVerdict::ReservedGleam);
    assert_eq!(validade_path("sgleam.gleam"), PathVerdict::ReservedSgleam);

    assert_eq!(ignoring_message("a.gleam", PathVerdict::Valid), None);
    assert_eq!(
        ignoring_message("a.txt", PathVerdict::NotGleamFile).as_deref(),
        Some("Ignoring `a.txt`: is not a valid gleam file.")
    );
    assert_eq!(
        ignoring_message("gleam.gleam", PathVerdict::ReservedGleam).as_deref(),
        Some("Ignoring `gleam.gleam`: `gleam` is a reserved module name.")
    );
    assert_eq!(
        ignoring_message("x/sgleam.gleam", PathVerdict::ReservedSgleam).as_deref(),
        Some("Ignoring `x/sgleam.gleam`: `sgleam` is a reserved module name.")
    );
}

#[test]
fn errors_of_the_program_are_worded() {
    let shown = show_error(&SgleamError::InvalidSMain {
        module: "m".to_string(),
        signature: "fn(Int) -> a".to_string(),
    })
    .expect("a diagnostic");
    assert_eq!(shown.title, "smain function has an invalid signature");
    assert_eq!(shown.text, "`m.smain` has the invalid signature `fn(Int) -> a` and can not be run.");
    assert_eq!(
        shown.hint,
        "Use one of the valid signatures for `smain` function:\n  fn() -> a\n  fn(String) -> a\n  fn(List(String)) -> a\n"
    );
    let shown = show_error(&SgleamError::PathNotInCurrentDir {
        current_dir: "/home/u".to_string(),
        path: "/tmp/a.gleam".to_string(),
    })
    .expect("a diagnostic");
    assert_eq!(shown.title, "path is not within the current directory");
    assert_eq!(shown.text, "`/tmp/a.gleam` is outside of the current directory `/home/u`");
    assert_eq!(shown.hint, "Change the current directory or specify another path.");
    assert!(show_error(&SgleamError::Gleam(GleamError::Other)).is_none());
}

#[test]
fn colour_is_chosen() {
    assert!(colour_forced(Some("1")));
    assert!(!colour_forced(Some("")));
    assert!(!colour_forced(None));
    assert_eq!(color_choice(true, false), ColorChoice::Always);
    assert_eq!(color_choice(true, true), ColorChoice::Always);
    assert_eq!(color_choice(false, true), ColorChoice::Auto);
    assert_eq!(color_choice(false, false), ColorChoice::Never);
}

#[test]
fn the_unit_of_a_file_is_its_path_without_extension() {
    assert_eq!(module_of_path("user.gleam"), "user");
    assert_eq!(module_of_path("dir/sub/user.gleam"), "dir/sub/user");
    assert_eq!(module_of_path("dir\\user.gleam"), "dir/user");
    assert_eq!(module_of_path("user"), "user");
    assert_eq!(module_of_path("a.b.gleam"), "a.b");
}

#[test]
fn the_command_line_decides_what_is_done() {
    let none = Request { interative: false, test: false, format: false, check: false, version: false };
    assert_eq!(command(none, 0), Command::Interactive);
    assert_eq!(command(none, 1), Command::Run);
    assert_eq!(command(none, 2), Command::TooManyFiles);
    assert_eq!(command(Request { version: true, format: true, ..none }, 3), Command::Version);
    assert_eq!(command(Request { format: true, ..none }, 0), Command::Format);
    assert_eq!(command(Request { format: true, ..none }, 2), Command::Format);
    assert_eq!(command(Request { check: true, ..none }, 0), Command::Interactive);
    assert_eq!(command(Request { check: true, ..none }, 3), Command::Check);
    assert_eq!(command(Request { test: true, ..none }, 2), Command::Test);
    assert_eq!(command(Request { interative: true, ..none }, 1), Command::Interactive);
    assert_eq!(command(Request { interative: true, ..none }, 2), Command::TooManyFiles);
}

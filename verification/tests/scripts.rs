use sgleam::engine::{MainFunction, REPL_MAIN};
use sgleam::exports::{has_examples, runs_examples, FunctionName};
use sgleam::javascript::MainInput;
use sgleam::quickjs::Component::{Anchor, CurDir, Normal, ParentDir};
use sgleam::quickjs::{
    compiled_path, getline, is_interrupt, replace, resolve, resolve_path, run_main, run_tests,
    Resolution,
};

#[test]
fn entry_points_have_names() {
    assert_eq!(REPL_MAIN, "repl_main");
    assert_eq!(MainFunction::Main.name(), "main");
    assert_eq!(MainFunction::ReplMain.name(), "repl_main");
    assert_eq!(MainFunction::Smain.name(), "smain");
    assert_eq!(MainFunction::SmainStdin.name(), "smain");
    assert_eq!(MainFunction::SmainStdinLines.name(), "smain");
    for main in [
        MainFunction::Main,
        MainFunction::ReplMain,
        MainFunction::Smain,
        MainFunction::SmainStdin,
        MainFunction::SmainStdinLines,
    ] {
        assert_eq!(main.label(), format!("{main:?}"));
    }
}

#[test]
fn the_script_of_a_run_imports_the_entry_point() {
    assert_eq!(
        run_main("repl3_1", MainFunction::ReplMain, false),
        "import { try_main } from \"./sgleam/sgleam_ffi.mjs\";\nimport { repl_main } from \"./repl3_1.mjs\";\ntry_main(repl_main, \"ReplMain\", false);\n"
    );
    assert_eq!(
        run_main("dir/user", MainFunction::SmainStdinLines, true),
        "import { try_main } from \"./sgleam/sgleam_ffi.mjs\";\nimport { smain } from \"./dir/user.mjs\";\ntry_main(smain, \"SmainStdinLines\", true);\n"
    );
}

#[test]
fn the_script_of_the_tests_imports_each_unit() {
    assert_eq!(
        run_tests(&vec!["user".to_string(), "dir/sub/other".to_string()]),
        "import { run_tests } from \"./sgleam/sgleam_ffi.mjs\";\nimport * as user from \"./user.mjs\";\nimport * as dir_sub_other from \"./dir/sub/other.mjs\";\nrun_tests([user, dir_sub_other]);\n"
    );
    assert_eq!(
        run_tests(&vec![]),
        "import { run_tests } from \"./sgleam/sgleam_ffi.mjs\";\nrun_tests([]);\n"
    );
    assert_eq!(replace("a\\b\\c", '\\', '/'), "a/b/c");
    assert_eq!(replace("", '/', '_'), "");
}

#[test]
fn the_older_scripts_know_main_alone() {
    assert_eq!(
        sgleam::javascript::run_main("user", MainInput::StdinLines, true),
        "import { try_main } from \"./sgleam_ffi.mjs\";\nimport { main } from \"./user.mjs\";\ntry_main(main, \"StdinLines\", true);\n"
    );
    for input in [MainInput::Nothing, MainInput::Stdin, MainInput::StdinLines] {
        assert_eq!(input.label(), format!("{input:?}"));
    }
    assert_eq!(
        sgleam::javascript::run_tests(&vec!["a".to_string(), "b".to_string()]),
        "import { run_tests } from \"./sgleam_ffi.mjs\";\nimport * as a from \"./a.mjs\";\nimport * as b from \"./b.mjs\";\nrun_tests([a, b]);\n"
    );
}

#[test]
fn a_line_of_input_loses_its_line_break() {
    assert_eq!(getline(0, ""), None);
    assert_eq!(getline(4, "abc\n").as_deref(), Some("abc"));
    assert_eq!(getline(5, "abc\r\n").as_deref(), Some("abc"));
    assert_eq!(getline(3, "abc").as_deref(), Some("abc"));
    assert_eq!(getline(4, "abc\r").as_deref(), Some("abc\r"));
    assert_eq!(getline(1, "\n").as_deref(), Some(""));
    assert_eq!(getline(3, "\n\r\n").as_deref(), Some("\n"));
    assert_eq!(getline(3, "é\n").as_deref(), Some("é"));
}

#[test]
fn an_interrupt_is_told_by_its_message() {
    assert!(is_interrupt(Some("interrupted")));
    assert!(!is_interrupt(Some("Interrupted")));
    assert!(!is_interrupt(None));
    assert_eq!(compiled_path("dir/user"), "/build/dir/user.mjs");
}

#[test]
fn a_path_is_made_straight() {
    // /build/sgleam/../gleam/./io.mjs
    assert_eq!(
        resolve_path(&vec![Anchor, Normal, Normal, ParentDir, Normal, CurDir, Normal]),
        vec![0, 1, 4, 6]
    );
    // ../a/../../b
    assert_eq!(resolve_path(&vec![ParentDir, Normal, ParentDir, ParentDir, Normal]), vec![4]);
    // /..
    assert_eq!(resolve_path(&vec![Anchor, ParentDir]), vec![0]);
    assert_eq!(resolve_path(&vec![]), Vec::<usize>::new());
}

#[test]
fn a_module_is_looked_for_under_the_base_or_beside_its_importer() {
    match resolve("eval_script", "./user.mjs") {
        Resolution::UnderBase { name } => assert_eq!(name, "user.mjs"),
        other => panic!("{other:?}"),
    }
    match resolve("eval_script", "sgleam/sgleam_ffi.mjs") {
        Resolution::UnderBase { name } => assert_eq!(name, "sgleam/sgleam_ffi.mjs"),
        other => panic!("{other:?}"),
    }
    match resolve("/build/user.mjs", "./gleam/io.mjs") {
        Resolution::BesideImporter { name } => assert_eq!(name, "./gleam/io.mjs"),
        other => panic!("{other:?}"),
    }
}

#[test]
fn examples_are_public_functions_named_so() {
    let f = |public: bool, name: Option<&str>| FunctionName { public, name: name.map(String::from) };
    assert!(!has_examples(&vec![]));
    assert!(!has_examples(&vec![f(false, Some("a_examples")), f(true, Some("examples_a")), f(true, None)]));
    assert!(has_examples(&vec![f(true, Some("x")), f(true, Some("double_examples"))]));
    assert!(has_examples(&vec![f(true, Some("_examples"))]));
    let some = vec![f(true, Some("double_examples"))];
    assert!(runs_examples("pub fn double_examples() {}", Some(&some)));
    assert!(!runs_examples("", Some(&some)));
    assert!(!runs_examples("x", None));
}

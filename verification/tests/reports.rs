use sgleam::gleam::{
    print_checked, print_checking, print_compiled, print_compiling, print_downloading,
    print_packages_downloaded, print_published, print_publishing_documentation, print_resolving_versions,
    print_retired, print_running, print_unretired, print_waiting_for_build_directory_lock,
    ConsoleWarningEmitter, Report, Reporter, TypeWarning, Warning,
};

#[test]
fn the_prefix_is_set_to_the_right_in_eleven_columns() {
    let report = print_retired("wibble", "1.0.0");
    assert_eq!(report.prefix, "Retired");
    assert_eq!(report.text, "wibble 1.0.0");
    assert_eq!(report.padded_prefix(), "    Retired");
    assert_eq!(report.line(), format!("{: >11} wibble 1.0.0\n", "Retired"));
    assert_eq!(print_downloading("x").padded_prefix(), "Downloading");
    let long = Report { prefix: "Uncompressing".to_string(), text: String::new() };
    assert_eq!(long.padded_prefix(), "Uncompressing");
    assert_eq!(long.line(), "Uncompressing \n");
    let accented = Report { prefix: "Prêt".to_string(), text: "x".to_string() };
    assert_eq!(accented.line(), format!("{: >11} x\n", "Prêt"));
}

#[test]
fn each_report_has_its_word_and_text() {
    let pair = |r: Report| (r.prefix, r.text);
    let words = |a: &str, b: &str| (a.to_string(), b.to_string());
    assert_eq!(pair(print_published("0.25s")), words("Published", "in 0.25s"));
    assert_eq!(pair(print_unretired("p", "2")), words("Unretired", "p 2"));
    assert_eq!(pair(print_publishing_documentation()), words("Publishing", "documentation"));
    assert_eq!(pair(print_waiting_for_build_directory_lock()), words("Waiting", "for build directory lock"));
    assert_eq!(pair(print_resolving_versions()), words("Resolving", "versions"));
    assert_eq!(pair(print_compiling("app")), words("Compiling", "app"));
    assert_eq!(pair(print_checking("app")), words("Checking", "app"));
    assert_eq!(pair(print_compiled("1.00s")), words("Compiled", "in 1.00s"));
    assert_eq!(pair(print_checked("1.00s")), words("Checked", "in 1.00s"));
    assert_eq!(pair(print_running("app.main")), words("Running", "app.main"));
    assert_eq!(pair(print_packages_downloaded("0.10s", 1)), words("Downloaded", "1 package in 0.10s"));
    assert_eq!(pair(print_packages_downloaded("0.10s", 0)), words("Downloaded", "0 packages in 0.10s"));
    assert_eq!(pair(print_packages_downloaded("2.00s", 12)), words("Downloaded", "12 packages in 2.00s"));
    let reporter = Reporter::new();
    assert_eq!(pair(reporter.compiling_package("app")), words("Compiling", "app"));
    assert_eq!(pair(reporter.packages_downloaded("1.50s", 3)), words("Downloaded", "3 packages in 1.50s"));
    assert_eq!(pair(reporter.running("m")), words("Running", "m"));
}

#[test]
fn a_session_hides_the_warnings_about_what_is_unused() {
    let session = ConsoleWarningEmitter::with_repl(true);
    let file = ConsoleWarningEmitter::with_repl(false);
    let hidden = [
        TypeWarning::Todo,
        TypeWarning::UnreachableCodeAfterPanic,
        TypeWarning::UnusedConstructor,
        TypeWarning::UnusedImportedModule,
        TypeWarning::UnusedImportedModuleAlias,
        TypeWarning::UnusedImportedValue,
        TypeWarning::UnusedPrivateFunction,
        TypeWarning::UnusedPrivateModuleConstant,
        TypeWarning::UnusedType,
        TypeWarning::UnusedVariable,
    ];
    for warning in hidden {
        assert!(!session.emit_warning(Warning::Type(warning)));
        assert!(file.emit_warning(Warning::Type(warning)));
    }
    assert!(session.emit_warning(Warning::Type(TypeWarning::Other)));
    assert!(session.emit_warning(Warning::Other));
    assert!(file.emit_warning(Warning::Other));
}

use sgleam::parser::{Definition, Pattern, ReplItem, SrcSpan, Statement};
use sgleam::repl::{welcome_message, Action, Event, Failure, Phase, Repl, ReplOutput, QUIT, TYPE};

fn span(start: u32, end: u32) -> SrcSpan {
    SrcSpan { start, end }
}

/// Feeds `line` and then answers every request with `Done`, the parser's
/// request with `items`. Returns what was printed and how the turn ended.
fn turn_without_compiler(repl: &mut Repl, line: &str, items: Vec<ReplItem>) -> (Vec<String>, Action) {
    let mut printed = Vec::new();
    let mut items = Some(items);
    let mut action = repl.run(Event::Line(line.to_string()));
    loop {
        action = match action {
            Action::Parse { .. } => repl.run(Event::Parsed(items.take().expect("parsed once"))),
            Action::Print { text } => {
                printed.push(text);
                repl.run(Event::Done)
            }
            done => return (printed, done),
        };
    }
}

#[test]
fn repl_import() {
    let mut repl = Repl::new(None);
    let items = vec![ReplItem::ReplDefinition(Definition::Import { location: span(0, 16) })];
    let (printed, end) = turn_without_compiler(&mut repl, "import something", items);
    assert_eq!(printed.join("\n"), "imports are not supported.");
    assert!(matches!(end, Action::Finish(ReplOutput::StdOut)));
}

#[test]
fn repl_let_int_pattern() {
    let mut repl = Repl::new(None);
    let items = vec![ReplItem::ReplStatement(Statement::Assignment {
        location: span(0, 11),
        pattern: Pattern::Other,
        value: span(9, 11),
    })];
    let (printed, end) = turn_without_compiler(&mut repl, "let 10 = 10", items);
    assert_eq!(printed.join("\n"), "patterns are not supported in let statements.");
    assert!(matches!(end, Action::Finish(ReplOutput::StdOut)));
}

#[test]
fn repl_quit() {
    let mut repl = Repl::new(None);
    let input = format!("{QUIT}\n10");
    let mut printed: Vec<String> = Vec::new();
    for line in input.lines() {
        match repl.run(Event::Line(format!("{line}\n"))) {
            Action::Finish(ReplOutput::Quit) => break,
            other => printed.push(format!("{other:?}")),
        }
    }
    assert_eq!(printed.join("\n"), "");
    assert_eq!(repl.phase(), Phase::Idle);
}

#[test]
fn repl_welcome_message() {
    assert_eq!(
        welcome_message("1.9.1"),
        "Welcome to sgleam 0.1.0 (using gleam 1.9.1 and stdlib 0.57.0).\nType ctrl-d ou \":quit\" to exit.\n"
    );
}

#[test]
fn type_prefix_has_a_blank() {
    assert_eq!(TYPE, ":type ");
    assert_eq!(QUIT, ":quit");
    let mut repl = Repl::new(None);
    assert!(matches!(repl.run(Event::ParseFailed), Action::Refuse));
    let first = repl.run(Event::Line(":type10".to_string()));
    match first {
        Action::Parse { path, text } => {
            assert_eq!(path, "/src/repl1_0.gleam");
            assert_eq!(text, ":type10");
        }
        other => panic!("{other:?}"),
    }
    assert!(matches!(repl.run(Event::ParseFailed), Action::Fail(Failure::Parse)));
}

const PRELUDE: &str = "
@external(javascript, \"./sgleam_ffi.mjs\", \"repl_save\")
pub fn repl_save(value: a) -> a

@external(javascript, \"./sgleam_ffi.mjs\", \"repl_load\")
pub fn repl_load(index: Int) -> a
import gleam/bit_array
import gleam/bool
import gleam/bytes_tree
import gleam/dict
import gleam/dynamic
import gleam/float
import gleam/function
import gleam/int
import gleam/io
import gleam/list
import gleam/option
import gleam/order
import gleam/pair
import gleam/result
import gleam/set
import gleam/string
import gleam/string_tree
import gleam/uri
import sgleam/check
import sgleam/color
import sgleam/fill
import sgleam/image
import sgleam/stroke
import sgleam/style
import sgleam/system
import sgleam/world
import sgleam/xplace
import sgleam/yplace
";

fn named(name: &str, args: Vec<sgleam::gleam::Type>) -> sgleam::gleam::Type {
    sgleam::gleam::Type::Named { name: name.to_string(), args }
}

fn expression(start: u32, end: u32) -> ReplItem {
    ReplItem::ReplStatement(Statement::Expression { location: span(start, end) })
}

fn let_variable(name: &str, start: u32, value_start: u32, end: u32) -> ReplItem {
    ReplItem::ReplStatement(Statement::Assignment {
        location: span(start, end),
        pattern: Pattern::Variable { name: name.to_string() },
        value: span(value_start, end),
    })
}

/// What a compiler and a runtime answer in a test.
struct Host {
    /// The units that are there.
    files: Vec<String>,
    /// What was written into the units, in order.
    written: Vec<(String, String)>,
    /// Whether the compiler is to fail.
    fail_compile: bool,
    /// What the store of values holds after a run.
    store_after_run: usize,
    /// The type that the wrapper function returns.
    main_type: Option<sgleam::gleam::Type>,
    /// What was asked to run.
    runs: Vec<String>,
    printed: Vec<String>,
}

impl Host {
    fn new() -> Host {
        Host {
            files: vec![],
            written: vec![],
            fail_compile: false,
            store_after_run: 0,
            main_type: None,
            runs: vec![],
            printed: vec![],
        }
    }

    /// Carries out what the engine asks until the turn is over.
    fn turn(&mut self, repl: &mut Repl, line: &str, items: Vec<ReplItem>) -> Action {
        let mut items = Some(items);
        let mut action = repl.run(Event::Line(line.to_string()));
        loop {
            action = match action {
                Action::Parse { .. } => repl.run(Event::Parsed(items.take().expect("parsed once"))),
                Action::Print { text } => {
                    self.printed.push(text);
                    repl.run(Event::Done)
                }
                Action::WriteSource { file, text } => {
                    self.files.push(file.clone());
                    self.written.push((file, text));
                    repl.run(Event::Done)
                }
                Action::Compile => {
                    if self.fail_compile {
                        repl.run(Event::CompileFailed)
                    } else {
                        let mut units = vec!["gleam/io".to_string()];
                        for file in &self.files {
                            units.push(file.strip_suffix(".gleam").expect("a unit").to_string());
                        }
                        units.push("gleam/list".to_string());
                        repl.run(Event::Compiled(units))
                    }
                }
                Action::DeleteSource { file } => {
                    self.files.retain(|f| *f != file);
                    repl.run(Event::Done)
                }
                Action::Run { module, main, show_output } => {
                    assert_eq!(main, sgleam::engine::MainFunction::ReplMain);
                    assert!(!show_output);
                    self.runs.push(module);
                    repl.run(Event::Done)
                }
                Action::StoreLength => repl.run(Event::StoreLength(self.store_after_run)),
                Action::FunctionType { unit, function } => {
                    assert_eq!(unit, 1);
                    assert_eq!(function, "repl_main");
                    repl.run(Event::FunctionType(self.main_type.take().expect("a type")))
                }
                done => return done,
            };
        }
    }
}

#[test]
fn a_binding_is_stored_and_loaded_in_the_next_turn() {
    let mut repl = Repl::new(None);
    let mut host = Host::new();
    host.store_after_run = 1;
    host.main_type = Some(named("Result", vec![named("Int", vec![]), sgleam::gleam::Type::Var { id: 7 }]));

    let end = host.turn(&mut repl, "let a = Ok(10)\n", vec![let_variable("a", 0, 8, 14)]);
    assert!(matches!(end, Action::Finish(ReplOutput::StdOut)));
    assert_eq!(host.runs, vec!["repl1_1".to_string()]);
    assert_eq!(host.written.len(), 1);
    assert_eq!(host.written[0].0, "repl1_1.gleam");
    assert_eq!(
        host.written[0].1,
        format!("{PRELUDE}pub fn repl_main() {{\n  \n  io.debug(repl_save({{\nlet a = Ok(10)\n  }}))\n}}\n")
    );
    assert!(host.files.is_empty());
    assert_eq!(repl.next_slot(), 1);
    assert_eq!(repl.session().vars.len(), 1);
    assert_eq!(repl.session().vars[0].name, "a");
    assert_eq!(repl.session().vars[0].value.index, 0);
    assert_eq!(repl.session().vars[0].value.type_, "Result(Int, a)");

    let end = host.turn(&mut repl, "a\n", vec![expression(0, 1)]);
    assert!(matches!(end, Action::Finish(ReplOutput::StdOut)));
    assert_eq!(host.runs, vec!["repl1_1".to_string(), "repl2_1".to_string()]);
    assert_eq!(host.written[1].0, "repl2_1.gleam");
    assert_eq!(
        host.written[1].1,
        format!(
            "{PRELUDE}pub fn repl_main() {{\n    let a = fn () -> Result(Int, a) {{ repl_load(0) }} ()\n\n  io.debug({{\na\n  }})\n}}\n"
        )
    );
    assert!(host.files.is_empty());
    assert!(host.printed.is_empty());
}

#[test]
fn a_value_that_was_not_stored_binds_nothing() {
    let mut repl = Repl::new(None);
    let mut host = Host::new();
    host.store_after_run = 0;
    let end = host.turn(&mut repl, "let x = panic", vec![let_variable("x", 0, 8, 13)]);
    assert!(matches!(end, Action::Finish(ReplOutput::StdOut)));
    assert_eq!(host.runs.len(), 1);
    assert!(repl.session().vars.is_empty());
    assert_eq!(repl.next_slot(), 0);

    host.store_after_run = 1;
    host.main_type = Some(named("Int", vec![]));
    host.turn(&mut repl, "let x = 1", vec![let_variable("x", 0, 8, 9)]);
    assert_eq!(repl.session().vars.len(), 1);
    assert_eq!(repl.session().vars[0].value.index, 0);
    assert_eq!(repl.next_slot(), 1);
}

#[test]
fn a_failed_turn_leaves_the_session_as_it_was() {
    let mut repl = Repl::new(None);
    let mut host = Host::new();
    let line = "const a = 1 pub type T { T } fn f() { a } nope";
    let items = vec![
        ReplItem::ReplDefinition(Definition::ModuleConstant { location: span(0, 11) }),
        ReplItem::ReplDefinition(Definition::CustomType { location: span(12, 28) }),
        ReplItem::ReplDefinition(Definition::Function {
            location: span(29, 41),
            name: "f".to_string(),
            arguments: vec![],
            body: span(38, 39),
        }),
        expression(42, 46),
    ];
    let end = host.turn(&mut repl, line, items);
    assert!(matches!(end, Action::Finish(ReplOutput::StdOut)));
    assert_eq!(repl.session().consts, vec!["const a = 1".to_string()]);
    assert_eq!(repl.session().types, vec!["pub type T { T }".to_string()]);
    assert_eq!(repl.session().fns.len(), 1);
    assert_eq!(repl.session().fns[0].code, "fn f() { \n  a }");
    let before = repl.session().build_source();
    assert_eq!(before, format!("{PRELUDE}const a = 1\npub type T {{ T }}\nfn f() {{ \n  a }}\n"));
    assert_eq!(host.written.len(), 4);
    assert_eq!(host.written[3].0, "repl1_4.gleam");

    host.fail_compile = true;
    let line = "const b = 2 const c = d";
    let items = vec![
        ReplItem::ReplDefinition(Definition::ModuleConstant { location: span(0, 11) }),
        ReplItem::ReplDefinition(Definition::ModuleConstant { location: span(12, 23) }),
    ];
    let end = host.turn(&mut repl, line, items);
    assert!(matches!(end, Action::Fail(Failure::Compile)));
    assert_eq!(repl.session().build_source(), before);
    assert_eq!(repl.session().consts.len(), 1);
    assert_eq!(repl.phase(), Phase::Idle);
    assert!(host.files.is_empty());
    assert_eq!(host.written.len(), 5);
    assert_eq!(host.written[4].0, "repl2_1.gleam");
}

#[test]
fn a_type_query_shows_the_type_and_runs_nothing() {
    let mut repl = Repl::new(None);
    let mut host = Host::new();
    host.main_type = Some(sgleam::gleam::Type::Fn {
        args: vec![named("Int", vec![]), named("Int", vec![])],
        retrn: Box::new(named("Int", vec![])),
    });
    let end = host.turn(&mut repl, &format!("{TYPE} int.add\n"), vec![expression(1, 8)]);
    assert!(matches!(end, Action::Finish(ReplOutput::StdOut)));
    assert_eq!(host.printed, vec!["fn(Int, Int) -> Int".to_string()]);
    assert!(host.runs.is_empty());
    assert!(repl.session().vars.is_empty());
    assert_eq!(repl.next_slot(), 0);
    assert_eq!(
        host.written[0].1,
        format!("{PRELUDE}pub fn repl_main() {{\n  \n  io.debug({{\n int.add\n  }})\n}}\n")
    );

    host.main_type = Some(named("Int", vec![]));
    let end = host.turn(&mut repl, ":type let x = 10", vec![let_variable("x", 0, 8, 10)]);
    assert!(matches!(end, Action::Finish(ReplOutput::StdOut)));
    assert_eq!(host.printed[1], "Int");
    assert!(host.runs.is_empty());
    assert!(repl.session().vars.is_empty());
    assert_eq!(repl.next_slot(), 0);
}

#[test]
fn a_type_query_takes_one_expression_only() {
    let mut repl = Repl::new(None);
    let mut host = Host::new();
    let end = host.turn(&mut repl, ":type 1 2", vec![expression(0, 1), expression(2, 3)]);
    assert!(matches!(end, Action::Finish(ReplOutput::StdOut)));
    let end = host.turn(&mut repl, ":type // nothing", vec![]);
    assert!(matches!(end, Action::Finish(ReplOutput::StdOut)));
    let end = host.turn(
        &mut repl,
        ":type const a = 1",
        vec![ReplItem::ReplDefinition(Definition::ModuleConstant { location: span(0, 11) })],
    );
    assert!(matches!(end, Action::Finish(ReplOutput::StdOut)));
    assert_eq!(
        host.printed,
        vec![
            ":type command expects exactly one expression.".to_string(),
            ":type command expects exactly one expression.".to_string(),
            ":type command cannot be used with definitions.".to_string(),
        ]
    );
    assert!(host.written.is_empty());
    assert!(repl.session().consts.is_empty());
}

#[test]
fn a_function_declared_again_replaces_the_first() {
    let mut repl = Repl::new(None);
    let mut host = Host::new();
    let function = |end: u32, body: u32| {
        vec![ReplItem::ReplDefinition(Definition::Function {
            location: span(0, end),
            name: "keep".to_string(),
            arguments: vec![],
            body: span(body, body + 1),
        })]
    };
    host.turn(&mut repl, "fn keep(_) { True }", function(19, 13));
    host.turn(&mut repl, "fn other() { 1 }", vec![ReplItem::ReplDefinition(Definition::Function {
        location: span(0, 16),
        name: "other".to_string(),
        arguments: vec![],
        body: span(13, 14),
    })]);
    host.turn(&mut repl, "fn keep(_) { False }", function(20, 13));
    assert_eq!(repl.session().fns.len(), 2);
    assert_eq!(
        repl.session().build_source(),
        format!("{PRELUDE}fn keep(_) {{ \n  False }}\nfn other() {{ \n  1 }}\n")
    );
}

#[test]
fn a_function_sees_the_variables_that_its_parameters_do_not_hide() {
    let mut repl = Repl::new(None);
    let mut host = Host::new();
    host.store_after_run = 1;
    host.main_type = Some(named("Int", vec![]));
    host.turn(&mut repl, "let a = 1", vec![let_variable("a", 0, 8, 9)]);
    host.store_after_run = 2;
    host.main_type = Some(named("String", vec![]));
    host.turn(&mut repl, "let b = \"é\"", vec![let_variable("b", 0, 8, 12)]);
    assert_eq!(repl.session().vars[1].value.index, 1);
    let items = vec![ReplItem::ReplDefinition(Definition::Function {
        location: span(0, 18),
        name: "f".to_string(),
        arguments: vec!["a".to_string()],
        body: span(10, 15),
    })];
    host.turn(&mut repl, "fn f(a) { a <> b }", items);
    assert_eq!(
        repl.session().fns[0].code,
        "fn f(a) { \n    let b = fn () -> String { repl_load(1) } ()\na <> b }"
    );
}

#[test]
fn a_place_outside_the_text_is_refused() {
    let mut repl = Repl::new(None);
    assert!(matches!(repl.run(Event::Line("é".to_string())), Action::Parse { .. }));
    assert!(matches!(repl.run(Event::Parsed(vec![expression(0, 1)])), Action::Refuse));
    assert!(matches!(repl.run(Event::Parsed(vec![expression(0, 3)])), Action::Refuse));
    assert_eq!(repl.phase(), Phase::Parsing);
    assert!(matches!(repl.run(Event::Parsed(vec![expression(0, 2)])), Action::WriteSource { .. }));
    assert!(matches!(repl.run(Event::Done), Action::Compile));
    assert!(matches!(repl.run(Event::Compiled(vec!["gleam/io".to_string()])), Action::Refuse));
    assert!(matches!(repl.run(Event::StoreLength(3)), Action::Refuse));
    assert_eq!(repl.phase(), Phase::Compiling);
}

#[test]
fn unsupported_items_do_not_stop_the_turn() {
    let user = sgleam::gleam::Module {
        name: "user".to_string(),
        public_type_names: vec!["Three".to_string()],
        public_value_names: vec!["one".to_string(), "two".to_string(), "Num3".to_string()],
    };
    let mut repl = Repl::new(Some(&user));
    let mut host = Host::new();
    let items = vec![
        ReplItem::ReplStatement(Statement::Use { location: span(0, 10) }),
        ReplItem::ReplStatement(Statement::Assert { location: span(11, 22) }),
        ReplItem::ReplStatement(Statement::Assignment {
            location: span(23, 33),
            pattern: Pattern::Discard,
            value: span(31, 33),
        }),
    ];
    let end = host.turn(&mut repl, "use a <- f assert True let _ = 10", items);
    assert!(matches!(end, Action::Finish(ReplOutput::StdOut)));
    assert_eq!(
        host.printed,
        vec![
            "use statements are not supported outside blocks.".to_string(),
            "assert is not supported.".to_string()
        ]
    );
    assert_eq!(host.runs, vec!["repl1_3".to_string()]);
    assert!(host.written[0].1.contains("\npub fn repl_load(index: Int) -> a\nimport user.{type Three, one, two, Num3, }\nimport gleam/bit_array\n"));
    assert!(host.written[0].1.ends_with("pub fn repl_main() {\n  \n  io.debug({\nlet _ = 10\n  })\n}\n"));
}

#[test]
fn a_variable_may_take_the_name_of_a_function() {
    let mut repl = Repl::new(None);
    let mut host = Host::new();
    let keep = vec![ReplItem::ReplDefinition(Definition::Function {
        location: span(0, 19),
        name: "keep".to_string(),
        arguments: vec![],
        body: span(13, 17),
    })];
    let end = host.turn(&mut repl, "fn keep(_) { True }", keep);
    assert!(matches!(end, Action::Finish(ReplOutput::StdOut)));
    let end = host.turn(&mut repl, "list.filter([1, 2], keep)", vec![expression(0, 25)]);
    assert!(matches!(end, Action::Finish(ReplOutput::StdOut)));
    assert_eq!(
        host.written[1].1,
        format!(
            "{PRELUDE}fn keep(_) {{ \n  True }}\npub fn repl_main() {{\n  \n  io.debug({{\nlist.filter([1, 2], keep)\n  }})\n}}\n"
        )
    );

    host.store_after_run = 1;
    host.main_type = Some(sgleam::gleam::Type::Fn {
        args: vec![sgleam::gleam::Type::Var { id: 31 }],
        retrn: Box::new(named("Bool", vec![])),
    });
    let end = host.turn(&mut repl, "let keep = fn (_) { True }", vec![let_variable("keep", 0, 11, 26)]);
    assert!(matches!(end, Action::Finish(ReplOutput::StdOut)));
    assert_eq!(repl.session().vars[0].value.type_, "fn(a) -> Bool");
    let end = host.turn(&mut repl, "list.filter([1, 2], keep)", vec![expression(0, 25)]);
    assert!(matches!(end, Action::Finish(ReplOutput::StdOut)));
    assert_eq!(
        host.written[3].1,
        format!(
            "{PRELUDE}fn keep(_) {{ \n  True }}\npub fn repl_main() {{\n    let keep = fn () -> fn(a) -> Bool {{ repl_load(0) }} ()\n\n  io.debug({{\nlist.filter([1, 2], keep)\n  }})\n}}\n"
        )
    );
    assert_eq!(host.runs.len(), 3);
}

#[test]
fn quit_changes_nothing() {
    let mut repl = Repl::new(None);
    assert!(matches!(repl.run(Event::Line("  :quit\n".to_string())), Action::Finish(ReplOutput::Quit)));
    match repl.run(Event::Line("1".to_string())) {
        Action::Parse { path, text } => {
            assert_eq!(path, "/src/repl1_0.gleam");
            assert_eq!(text, "1");
        }
        other => panic!("{other:?}"),
    }
    assert!(matches!(repl.run(Event::Line(":quit".to_string())), Action::Refuse));
}

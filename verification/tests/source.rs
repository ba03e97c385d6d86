use sgleam::parser::{
    classify, first_attempt, next_attempt, Attempt, Definition, Pattern, ReplItem, SrcSpan,
    Statement, Token, TurnItem,
};
use sgleam::repl::import_public_types_and_values;
use sgleam::source::{Session, Value, REPL_SAVE_LOAD_FNS};

#[test]
fn the_program_of_a_session_holds_all_in_order() {
    let mut session = Session::new(Some("import user.{one, }".to_string()), vec!["gleam/io".to_string()]);
    assert_eq!(session.build_source(), format!("{REPL_SAVE_LOAD_FNS}import user.{{one, }}\nimport gleam/io\n"));
    session.push_type("type A".to_string());
    session.push_const("const a = 1".to_string());
    session.push_const("const b = 2".to_string());
    session.insert_fn("f".to_string(), "fn f() { 1 }".to_string());
    session.insert_fn("g".to_string(), "fn g() { 2 }".to_string());
    session.insert_fn("f".to_string(), "fn f() { 3 }".to_string());
    assert_eq!(
        session.build_source(),
        format!(
            "{REPL_SAVE_LOAD_FNS}import user.{{one, }}\nimport gleam/io\nconst a = 1\nconst b = 2\ntype A\nfn f() {{ 3 }}\nfn g() {{ 2 }}\n"
        )
    );
    let copy = session.duplicate();
    assert_eq!(copy.build_source(), session.build_source());
    assert_eq!(Session::new(None, vec![]).build_source(), REPL_SAVE_LOAD_FNS);
}

#[test]
fn variables_are_bound_again_by_their_slots() {
    let mut session = Session::new(None, vec![]);
    assert_eq!(session.gen_lets(&vec![]), "");
    session.insert_var("x".to_string(), Value { index: 0, type_: "Int".to_string() });
    session.insert_var("y".to_string(), Value { index: 1, type_: "List(a)".to_string() });
    session.insert_var("x".to_string(), Value { index: 12, type_: "String".to_string() });
    assert_eq!(session.vars.len(), 2);
    assert_eq!(
        session.gen_lets(&vec![]),
        "  let x = fn () -> String { repl_load(12) } ()\n  let y = fn () -> List(a) { repl_load(1) } ()\n"
    );
    assert_eq!(
        session.gen_lets(&vec!["x".to_string(), "z".to_string()]),
        "  let y = fn () -> List(a) { repl_load(1) } ()\n"
    );
    let mut src = String::from("// before\n");
    session.add_expr(&mut src, "x");
    assert_eq!(
        src,
        "// before\npub fn repl_main() {\n    let x = fn () -> String { repl_load(12) } ()\n  let y = fn () -> List(a) { repl_load(1) } ()\n\n  io.debug({\nx\n  })\n}\n"
    );
    let mut src = String::new();
    Session::new(None, vec![]).add_let(&mut src, "let a = 1");
    assert_eq!(src, "pub fn repl_main() {\n  \n  io.debug(repl_save({\nlet a = 1\n  }))\n}\n");
}

#[test]
fn the_import_of_the_users_module_names_all_that_is_public() {
    let module = sgleam::gleam::Module {
        name: "dir/user".to_string(),
        public_type_names: vec!["Three".to_string(), "Four".to_string()],
        public_value_names: vec!["one".to_string(), "Num3".to_string()],
    };
    assert_eq!(
        import_public_types_and_values(&module),
        "import dir/user.{type Three, type Four, one, Num3, }"
    );
    let empty = sgleam::gleam::Module {
        name: "m".to_string(),
        public_type_names: vec![],
        public_value_names: vec![],
    };
    assert_eq!(import_public_types_and_values(&empty), "import m.{}");
}

#[test]
fn an_anonymous_function_is_read_as_a_statement() {
    assert_eq!(first_attempt(Some(Token::Fn), Some(Token::LeftParen)), Attempt::Statement);
    assert_eq!(first_attempt(Some(Token::Fn), Some(Token::Other)), Attempt::Definition);
    assert_eq!(first_attempt(Some(Token::LeftParen), Some(Token::Fn)), Attempt::Definition);
    assert_eq!(first_attempt(Some(Token::Fn), None), Attempt::Definition);
    assert_eq!(first_attempt(None, None), Attempt::Definition);
    assert_eq!(next_attempt(Attempt::Definition, false), Some(Attempt::Statement));
    assert_eq!(next_attempt(Attempt::Definition, true), None);
    assert_eq!(next_attempt(Attempt::Statement, false), None);
    assert_eq!(next_attempt(Attempt::Statement, true), None);
}

#[test]
fn items_keep_the_text_of_their_places() {
    let span = |start, end| SrcSpan { start, end };
    let src = "  let é: Int = 10 // ten";
    let item = ReplItem::ReplStatement(Statement::Assignment {
        location: span(2, 18),
        pattern: Pattern::Variable { name: "é".to_string() },
        value: span(16, 18),
    });
    match classify(&item, src) {
        Some(TurnItem::LetBinding { name, code }) => {
            assert_eq!(name, "é");
            assert_eq!(code, "let é: Int = 10");
        }
        other => panic!("{other:?}"),
    }
    let item = ReplItem::ReplStatement(Statement::Assignment {
        location: span(2, 7),
        pattern: Pattern::Discard,
        value: span(16, 7),
    });
    assert!(classify(&item, src).is_none());
    let src = "pub fn f(a) {\n  // c\n  a\n}";
    let item = ReplItem::ReplDefinition(Definition::Function {
        location: span(0, 26),
        name: "f".to_string(),
        arguments: vec!["a".to_string()],
        body: span(23, 24),
    });
    match classify(&item, src) {
        Some(TurnItem::FunctionDeclaration { name, params, head, body }) => {
            assert_eq!(name, "f");
            assert_eq!(params, vec!["a".to_string()]);
            assert_eq!(head, "pub fn f(a) {\n  // c\n  ");
            assert_eq!(body, "a\n}");
        }
        other => panic!("{other:?}"),
    }
    let item = ReplItem::ReplDefinition(Definition::TypeAlias { location: span(0, 27) });
    assert!(classify(&item, src).is_none());
    let item = ReplItem::ReplDefinition(Definition::Import { location: span(0, 99) });
    assert!(matches!(classify(&item, src), Some(TurnItem::Import)));
}

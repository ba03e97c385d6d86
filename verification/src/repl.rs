//! The session engine: what a session does with each line of input.
//!
//! The engine neither parses, compiles nor runs anything itself. It is driven
//! by events and answers each with the next thing to do: `Repl::run` takes
//! what has just happened and says what the host is to do now. The host
//! carries that out and comes back with the outcome.

use crate::engine::{MainFunction, REPL_MAIN};
use crate::gleam::{
    can_show, get_module, lettered, name_place, shown, type_to_string, Module, Type,
};
use crate::parser::{items_fit, items_of, turn_items, ItemView, ReplItem, TurnItem};
use crate::source::{
    expr_text, fn_text_with_lets, let_text, source_text, with_var, Session, SessionView, Value,
    VariableView,
};
use crate::text::{
    decimal_text, push_decimal, same_text, strip_prefix, trim, trimmed,
};
use vstd::prelude::*;

verus! {

/// The line that ends the session.
pub const QUIT: &'static str = ":quit";

/// What a line begins with that asks for the type of an expression.
pub const TYPE: &'static str = ":type ";

/// How a turn ended.
#[derive(Debug, Clone, Copy, PartialEq, Eq, Structural)]
pub enum ReplOutput {
    /// The user asked to leave.
    Quit,
    /// The line was dealt with.
    StdOut,
}

/// What made a turn fail.
#[derive(Debug, Clone, Copy, PartialEq, Eq, Structural)]
pub enum Failure {
    /// The line could not be parsed.
    Parse,
    /// The program built for one of its items did not compile.
    Compile,
}

/// What the engine waits for.
///
/// From `Idle` to `Idle` goes one turn: first the line is classified
/// (`Parsing`), then its items are dealt with one after the other (all
/// other phases). The turn ends with `Action::Finish`, and what it did
/// stays, or with `Action::Fail`, and nothing of it stays.
#[derive(Debug, Clone, Copy, PartialEq, Eq, Structural)]
pub enum Phase {
    /// A line of input.
    Idle,
    /// The parser's answer.
    Parsing,
    /// A message to be shown.
    Saying,
    /// The unit to be written.
    Staging,
    /// The compiler's answer.
    Compiling,
    /// The unit to be deleted.
    Cleaning,
    /// The engine to come back.
    Running,
    /// The length of the store of values.
    Measuring,
    /// The type of the wrapper function.
    Typing,
}

/// What the unit of the current item is compiled for.
#[derive(Debug, Clone, Copy, PartialEq, Eq, Structural)]
pub enum Goal {
    /// To see that a declaration is accepted.
    Check,
    /// To show a value.
    Evaluate,
    /// To show a value and bind a variable to it.
    Bind,
    /// To show a type.
    Query,
}

/// What has happened.
#[derive(Debug)]
pub enum Event {
    /// The user entered a line.
    Line(String),
    /// The parser found these constructs in the text.
    Parsed(Vec<ReplItem>),
    /// The parser rejected the text.
    ParseFailed,
    /// What was asked for has been done: a message shown, the unit written
    /// or deleted, the run ended (well or not).
    Done,
    /// The compiler succeeded; these are the names of the units it gave, in
    /// its order.
    Compiled(Vec<String>),
    /// The compiler failed.
    CompileFailed,
    /// The store of values holds this many values.
    StoreLength(usize),
    /// This is the type that the function asked about returns.
    FunctionType(Type),
}

/// What the host is to do next.
#[derive(Debug)]
pub enum Action {
    /// Parse `text` as a series of definitions and statements; an error is
    /// reported under `path`.
    Parse { path: String, text: String },
    /// Show `text` on a line of its own.
    Print { text: String },
    /// Write the unit `file` with the content `text`.
    WriteSource { file: String, text: String },
    /// Compile all units.
    Compile,
    /// Delete the unit `file`.
    DeleteSource { file: String },
    /// Run the function `main` of the unit `module`.
    Run { module: String, main: MainFunction, show_output: bool },
    /// Tell how many values the store holds.
    StoreLength,
    /// Tell the type that `function` returns in the compiled unit number
    /// `unit`.
    FunctionType { unit: usize, function: String },
    /// The turn is over and what it did stays.
    Finish(ReplOutput),
    /// The turn is over and nothing of it stays; the error of the parser or
    /// the compiler is to be shown.
    Fail(Failure),
    /// The event is none that the engine can take here. Nothing has changed.
    Refuse,
}

/// An `Action` as a mathematical value.
pub enum ActionView {
    Parse { path: Seq<char>, text: Seq<char> },
    Print { text: Seq<char> },
    WriteSource { file: Seq<char>, text: Seq<char> },
    Compile,
    DeleteSource { file: Seq<char> },
    Run { module: Seq<char>, main: MainFunction, show_output: bool },
    StoreLength,
    FunctionType { unit: int, function: Seq<char> },
    Finish(ReplOutput),
    Fail(Failure),
    Refuse,
}

impl View for Action {
    type V = ActionView;

    open spec fn view(&self) -> ActionView {
        match self {
            Action::Parse { path, text } => ActionView::Parse { path: path@, text: text@ },
            Action::Print { text } => ActionView::Print { text: text@ },
            Action::WriteSource { file, text } => ActionView::WriteSource {
                file: file@,
                text: text@,
            },
            Action::Compile => ActionView::Compile,
            Action::DeleteSource { file } => ActionView::DeleteSource { file: file@ },
            Action::Run { module, main, show_output } => ActionView::Run {
                module: module@,
                main: *main,
                show_output: *show_output,
            },
            Action::StoreLength => ActionView::StoreLength,
            Action::FunctionType { unit, function } => ActionView::FunctionType {
                unit: *unit as int,
                function: function@,
            },
            Action::Finish(output) => ActionView::Finish(*output),
            Action::Fail(failure) => ActionView::Fail(*failure),
            Action::Refuse => ActionView::Refuse,
        }
    }
}

/// A session and the turn that it is in.
#[derive(Debug)]
pub struct Repl {
    session: Session,
    saved: Session,
    iter: (usize, usize),
    var_index: usize,
    phase: Phase,
    goal: Goal,
    type_: bool,
    input: String,
    items: Vec<TurnItem>,
    name: String,
    unit: Option<usize>,
}

/// A `Repl` as a mathematical value.
pub struct ReplView {
    /// What the session holds now.
    pub session: SessionView,
    /// What it held when the items of the turn began to be dealt with.
    pub saved: SessionView,
    /// The number of the turn. It only grows.
    pub turn: int,
    /// How many items of the turn have been taken up.
    pub item: int,
    /// The slot that the next variable gets. It only grows, also where a
    /// turn fails: the values that the runtime has stored stay stored.
    pub next_slot: int,
    pub phase: Phase,
    pub goal: Goal,
    /// Whether the turn asks for a type.
    pub type_query: bool,
    /// The text that was handed to the parser.
    pub input: Seq<char>,
    /// The items of the turn.
    pub items: Seq<ItemView>,
    /// The name of the variable that is being bound.
    pub name: Seq<char>,
    /// The place of the turn's unit among the compiled units; nothing where
    /// the compiler failed.
    pub unit: Option<int>,
}

impl View for Repl {
    type V = ReplView;

    closed spec fn view(&self) -> ReplView {
        ReplView {
            session: self.session@,
            saved: self.saved@,
            turn: self.iter.0 as int,
            item: self.iter.1 as int,
            next_slot: self.var_index as int,
            phase: self.phase,
            goal: self.goal,
            type_query: self.type_,
            input: self.input@,
            items: self.items.deep_view(),
            name: self.name@,
            unit: match self.unit {
                Some(at) => Some(at as int),
                None => None,
            },
        }
    }
}

/// The name of the unit of item number `item` of turn number `turn`.
pub open spec fn unit_name(turn: int, item: int) -> Seq<char> {
    "repl"@ + decimal_text(turn as nat) + "_"@ + decimal_text(item as nat)
}

/// The name of the file of that unit.
pub open spec fn unit_file(turn: int, item: int) -> Seq<char> {
    unit_name(turn, item) + ".gleam"@
}

/// The path under which a parse error of that turn is reported.
pub open spec fn unit_path(turn: int, item: int) -> Seq<char> {
    "/src/"@ + unit_name(turn, item) + ".gleam"@
}

/// No two units have the same name: the name tells the number of the turn
/// and the number of the item.
pub proof fn lemma_unit_names_differ(turn: nat, item: nat, other_turn: nat, other_item: nat)
    requires
        unit_name(turn as int, item as int) == unit_name(other_turn as int, other_item as int),
    ensures
        turn == other_turn,
        item == other_item,
{
    reveal_strlit("repl");
    reveal_strlit("_");
    let a = decimal_text(turn);
    let b = decimal_text(item);
    let c = decimal_text(other_turn);
    let d = decimal_text(other_item);
    crate::text::lemma_decimal_digits(turn);
    crate::text::lemma_decimal_digits(other_turn);
    let left = unit_name(turn as int, item as int);
    let right = unit_name(other_turn as int, other_item as int);
    assert(left.len() == 4 + a.len() + 1 + b.len());
    assert(right.len() == 4 + c.len() + 1 + d.len());
    let m = a.len() as int;
    let n = c.len() as int;
    assert(left[4 + m] == '_');
    assert(right[4 + n] == '_');
    if m < n {
        assert(right[4 + m] == c[m]);
    }
    if n < m {
        assert(left[4 + n] == a[n]);
    }
    assert(a =~= c) by {
        assert forall|i: int| 0 <= i < a.len() implies a[i] == c[i] by {
            assert(left[4 + i] == a[i]);
            assert(right[4 + i] == c[i]);
        }
    }
    assert(b =~= d) by {
        assert forall|i: int| 0 <= i < b.len() implies b[i] == d[i] by {
            assert(left[4 + m + 1 + i] == b[i]);
            assert(right[4 + n + 1 + i] == d[i]);
        }
    }
    crate::text::lemma_decimal_differs(turn, other_turn);
    crate::text::lemma_decimal_differs(item, other_item);
}

/// No two units have the same file.
pub proof fn lemma_unit_files_differ(turn: nat, item: nat, other_turn: nat, other_item: nat)
    requires
        unit_file(turn as int, item as int) == unit_file(other_turn as int, other_item as int),
    ensures
        turn == other_turn,
        item == other_item,
{
    let left = unit_name(turn as int, item as int);
    let right = unit_name(other_turn as int, other_item as int);
    let end = ".gleam"@;
    assert((left + end).len() == left.len() + end.len());
    assert((right + end).len() == right.len() + end.len());
    assert(left =~= right) by {
        assert forall|i: int| 0 <= i < left.len() implies left[i] == right[i] by {
            assert((left + end)[i] == left[i]);
            assert((right + end)[i] == right[i]);
        }
    }
    lemma_unit_names_differ(turn, item, other_turn, other_item);
}

/// Whether an item is a declaration.
pub open spec fn is_declaration(item: ItemView) -> bool {
    item is Import || item is Constant || item is TypeDeclaration || item is FunctionDeclaration
}

/// Whether the type of an item can be asked for.
pub open spec fn has_type(item: ItemView) -> bool {
    item is Expression || item is LetBinding
}

/// What a turn is told that asks for the type of anything but one expression.
pub open spec fn expects_one_expression() -> Seq<char> {
    TYPE@ + "command expects exactly one expression."@
}

/// What a turn is told that asks for the type of a definition.
pub open spec fn not_with_definitions() -> Seq<char> {
    TYPE@ + "command cannot be used with definitions."@
}

/// The message that an item gets which the session does not take.
pub open spec fn unsupported_text(item: ItemView) -> Seq<char> {
    match item {
        ItemView::Import => "imports are not supported."@,
        ItemView::UseStatement => "use statements are not supported outside blocks."@,
        ItemView::PatternBinding => "patterns are not supported in let statements."@,
        _ => "assert is not supported."@,
    }
}

/// The engine asks for the unit of the current item to be written.
pub open spec fn stage(r: ReplView, goal: Goal, text: Seq<char>) -> (ReplView, ActionView) {
    (
        ReplView { phase: Phase::Staging, goal, ..r },
        ActionView::WriteSource { file: unit_file(r.turn, r.item), text },
    )
}

/// The engine asks for a message to be shown.
pub open spec fn say(r: ReplView, text: Seq<char>) -> (ReplView, ActionView) {
    (ReplView { phase: Phase::Saying, ..r }, ActionView::Print { text })
}

/// The engine takes up the next item of the turn, or ends the turn where
/// none is left.
///
/// A declaration is taken into the session at once and the whole of the
/// session is compiled to see whether it is accepted. A function gets the
/// variables bound again at the start of its body. A binding or an
/// expression is compiled inside a wrapper function after all that the
/// session holds. What the session does not take gets a message.
pub open spec fn advance(r: ReplView) -> (ReplView, ActionView) {
    if r.item < 0 || r.item >= r.items.len() {
        (ReplView { phase: Phase::Idle, ..r }, ActionView::Finish(ReplOutput::StdOut))
    } else {
        let next = ReplView { item: r.item + 1, ..r };
        match r.items[r.item] {
            ItemView::Constant { code } => {
                let session = SessionView { consts: r.session.consts.push(code), ..r.session };
                stage(ReplView { session, ..next }, Goal::Check, source_text(session))
            },
            ItemView::TypeDeclaration { code } => {
                let session = SessionView { types: r.session.types.push(code), ..r.session };
                stage(ReplView { session, ..next }, Goal::Check, source_text(session))
            },
            ItemView::FunctionDeclaration { name, params, head, body } => {
                let code = fn_text_with_lets(r.session.vars, params, head, body);
                let session = SessionView {
                    fns: crate::source::with_fn(
                        r.session.fns,
                        crate::source::FunctionView { name, code },
                    ),
                    ..r.session
                };
                stage(ReplView { session, ..next }, Goal::Check, source_text(session))
            },
            ItemView::LetBinding { name, code } => stage(
                ReplView { name, ..next },
                Goal::Bind,
                source_text(r.session) + let_text(r.session.vars, code),
            ),
            ItemView::DiscardBinding { code } => stage(
                next,
                Goal::Evaluate,
                source_text(r.session) + expr_text(r.session.vars, code),
            ),
            ItemView::Expression { code } => stage(
                next,
                Goal::Evaluate,
                source_text(r.session) + expr_text(r.session.vars, code),
            ),
            item => say(next, unsupported_text(item)),
        }
    }
}

/// The turn fails: the session is again what it was when the items of the
/// turn began to be dealt with.
pub open spec fn roll_back(r: ReplView, failure: Failure) -> (ReplView, ActionView) {
    (ReplView { session: r.saved, phase: Phase::Idle, ..r }, ActionView::Fail(failure))
}

/// A line comes in. The line that is `:quit` once the white space around it
/// is taken away ends the session, and changes nothing. With any other line
/// a new turn begins: a line that begins with `:type ` once the white space
/// around it is taken away asks for the type of what follows; any other
/// line goes to the parser as it is.
pub open spec fn on_line(r: ReplView, line: Seq<char>) -> (ReplView, ActionView) {
    let begun = ReplView { turn: r.turn + 1, item: 0, ..r };
    let bare = trimmed(line);
    if bare == QUIT@ {
        (r, ActionView::Finish(ReplOutput::Quit))
    } else {
        let type_query = TYPE@.is_prefix_of(bare);
        let input = if type_query {
            bare.skip(TYPE@.len() as int)
        } else {
            line
        };
        (
            ReplView { phase: Phase::Parsing, type_query, input, ..begun },
            ActionView::Parse { path: unit_path(begun.turn, 0), text: input },
        )
    }
}

/// The parser has answered. From here on the session may change, so what it
/// holds is kept for the case that the turn fails.
///
/// A turn that asks for a type goes on only with a single item that is an
/// expression or the binding of a variable; the whole text is then compiled
/// as an expression, and never run.
pub open spec fn on_parsed(r: ReplView, items: Seq<ReplItem>) -> (ReplView, ActionView) {
    let found = items_of(items, r.input);
    let kept = ReplView { saved: r.session, items: found, ..r };
    if !r.type_query {
        advance(kept)
    } else if found.len() == 1 && has_type(found[0]) {
        stage(
            ReplView { item: 1, ..kept },
            Goal::Query,
            source_text(r.session) + expr_text(r.session.vars, r.input),
        )
    } else if found.len() == 1 && is_declaration(found[0]) {
        say(ReplView { items: Seq::empty(), ..kept }, not_with_definitions())
    } else {
        say(ReplView { items: Seq::empty(), ..kept }, expects_one_expression())
    }
}

/// The unit has been deleted. Where the compiler failed the turn fails.
/// Else a declaration is done with, a value is computed, or a type is asked
/// for.
pub open spec fn on_cleaned(r: ReplView) -> (ReplView, ActionView) {
    match r.unit {
        None => roll_back(r, Failure::Compile),
        Some(at) => match r.goal {
            Goal::Check => advance(r),
            Goal::Query => (
                ReplView { phase: Phase::Typing, ..r },
                ActionView::FunctionType { unit: at, function: REPL_MAIN@ },
            ),
            _ => (
                ReplView { phase: Phase::Running, ..r },
                ActionView::Run {
                    module: unit_name(r.turn, r.item),
                    main: MainFunction::ReplMain,
                    show_output: false,
                },
            ),
        },
    }
}

/// The store holds `length` values. The value of the binding has been stored
/// where the store has grown beyond the slot that the binding was to get;
/// else the evaluation did not reach its end and no variable is bound.
pub open spec fn on_length(r: ReplView, length: int) -> (ReplView, ActionView) {
    if length > r.next_slot {
        (
            ReplView { phase: Phase::Typing, ..r },
            ActionView::FunctionType { unit: r.unit->0, function: REPL_MAIN@ },
        )
    } else {
        advance(r)
    }
}

/// The type of the wrapper function is known. A turn that asked for it
/// shows it. A binding is made: the variable gets the next slot and the
/// type as it is written.
pub open spec fn on_type(r: ReplView, ty: Type) -> (ReplView, ActionView) {
    if r.goal == Goal::Query {
        say(r, shown(ty))
    } else {
        let var = VariableView { name: r.name, index: r.next_slot, type_: shown(ty) };
        let session = SessionView { vars: with_var(r.session.vars, var), ..r.session };
        advance(ReplView { session, next_slot: r.next_slot + 1, ..r })
    }
}

/// Whether the engine can take `event` in the state `r`.
pub open spec fn accepts(r: ReplView, event: Event) -> bool {
    match (r.phase, event) {
        (Phase::Idle, Event::Line(line)) => trimmed(line@) == QUIT@ || r.turn < usize::MAX,
        (Phase::Parsing, Event::Parsed(items)) => items_fit(items@, r.input),
        (Phase::Parsing, Event::ParseFailed) => true,
        (Phase::Saying, Event::Done) => true,
        (Phase::Staging, Event::Done) => true,
        (Phase::Compiling, Event::Compiled(names)) => name_place(
            names.deep_view(),
            unit_name(r.turn, r.item),
        ) < names@.len(),
        (Phase::Compiling, Event::CompileFailed) => true,
        (Phase::Cleaning, Event::Done) => true,
        (Phase::Running, Event::Done) => true,
        (Phase::Measuring, Event::StoreLength(length)) => r.unit is Some,
        (Phase::Typing, Event::FunctionType(ty)) => lettered(ty, Seq::empty()) && (r.goal
            == Goal::Query || r.next_slot < usize::MAX),
        _ => false,
    }
}

/// What the engine does with `event` in the state `r`: the state that it is
/// in afterwards and what it asks for.
pub open spec fn step(r: ReplView, event: Event) -> (ReplView, ActionView) {
    if !accepts(r, event) {
        (r, ActionView::Refuse)
    } else {
        match event {
            Event::Line(line) => on_line(r, line@),
            Event::Parsed(items) => on_parsed(r, items@),
            Event::ParseFailed => (
                ReplView { phase: Phase::Idle, ..r },
                ActionView::Fail(Failure::Parse),
            ),
            Event::Compiled(names) => (
                ReplView {
                    phase: Phase::Cleaning,
                    unit: Some(name_place(names.deep_view(), unit_name(r.turn, r.item))),
                    ..r
                },
                ActionView::DeleteSource { file: unit_file(r.turn, r.item) },
            ),
            Event::CompileFailed => (
                ReplView { phase: Phase::Cleaning, unit: None, ..r },
                ActionView::DeleteSource { file: unit_file(r.turn, r.item) },
            ),
            Event::StoreLength(length) => on_length(r, length as int),
            Event::FunctionType(ty) => on_type(r, ty),
            Event::Done => match r.phase {
                Phase::Saying => advance(r),
                Phase::Staging => (ReplView { phase: Phase::Compiling, ..r }, ActionView::Compile),
                Phase::Cleaning => on_cleaned(r),
                _ => if r.goal == Goal::Bind {
                    (ReplView { phase: Phase::Measuring, ..r }, ActionView::StoreLength)
                } else {
                    advance(r)
                },
            },
        }
    }
}

/// What `welcome_message` returns for the compiler version `gleam`.
pub open spec fn welcome_text(gleam: Seq<char>) -> Seq<char> {
    "Welcome to "@ + crate::version_text(gleam) + ".\nType ctrl-d ou \""@ + QUIT@
        + "\" to exit.\n"@
}

/// What a session greets the user with.
pub fn welcome_message(gleam: &str) -> (text: String)
    ensures
        text@ == welcome_text(gleam@),
{
    let mut text = String::from_str("Welcome to ");
    let version = crate::version(gleam);
    text.append(version.as_str());
    text.append(".\nType ctrl-d ou \"");
    text.append(QUIT);
    text.append("\" to exit.\n");
    text
}

/// `type `, a name and `, ` for each of the first `upto` of `types`.
pub open spec fn type_names_text(types: Seq<Seq<char>>, upto: int) -> Seq<char>
    decreases upto,
{
    if upto <= 0 || upto > types.len() {
        Seq::empty()
    } else {
        type_names_text(types, upto - 1) + "type "@ + types[upto - 1] + ", "@
    }
}

/// A name and `, ` for each of the first `upto` of `values`.
pub open spec fn value_names_text(values: Seq<Seq<char>>, upto: int) -> Seq<char>
    decreases upto,
{
    if upto <= 0 || upto > values.len() {
        Seq::empty()
    } else {
        value_names_text(values, upto - 1) + values[upto - 1] + ", "@
    }
}

/// The import that opens all that is public in `module`: its types and
/// then its values, by their names.
pub open spec fn import_text(module: Module) -> Seq<char> {
    "import "@ + module.name@ + ".{"@ + type_names_text(
        module.public_type_names.deep_view(),
        module.public_type_names@.len() as int,
    ) + value_names_text(
        module.public_value_names.deep_view(),
        module.public_value_names@.len() as int,
    ) + "}"@
}

/// Writes the import that opens all that is public in `module`.
pub fn import_public_types_and_values(module: &Module) -> (import: String)
    ensures
        import@ == import_text(*module),
{
    let mut import = String::from_str("import ");
    import.append(module.name.as_str());
    import.append(".{");
    let ghost start = import@;
    let types = &module.public_type_names;
    let mut i: usize = 0;
    while i < types.len()
        invariant
            i <= types.len(),
            import@ == start + type_names_text(types.deep_view(), i as int),
        decreases types.len() - i,
    {
        assert(types.deep_view()[i as int] == types@[i as int]@);
        import.append("type ");
        import.append(types[i].as_str());
        import.append(", ");
        assert(import@ =~= start + type_names_text(types.deep_view(), i + 1));
        i += 1;
    }
    let ghost middle = import@;
    let values = &module.public_value_names;
    let mut j: usize = 0;
    while j < values.len()
        invariant
            j <= values.len(),
            import@ == middle + value_names_text(values.deep_view(), j as int),
        decreases values.len() - j,
    {
        assert(values.deep_view()[j as int] == values@[j as int]@);
        import.append(values[j].as_str());
        import.append(", ");
        assert(import@ =~= middle + value_names_text(values.deep_view(), j + 1));
        j += 1;
    }
    import.append("}");
    import
}

/// The session at its start: it holds the user's import and the standard
/// modules, and waits for the first line.
pub open spec fn initial(user_import: Option<Seq<char>>) -> ReplView {
    let session = SessionView {
        user_import,
        imports: crate::modules_names(),
        consts: Seq::empty(),
        types: Seq::empty(),
        fns: Seq::empty(),
        vars: Seq::empty(),
    };
    ReplView {
        session,
        saved: session,
        turn: 0,
        item: 0,
        next_slot: 0,
        phase: Phase::Idle,
        goal: Goal::Check,
        type_query: false,
        input: Seq::empty(),
        items: Seq::empty(),
        name: Seq::empty(),
        unit: None,
    }
}

impl Repl {
    /// Whether the session is in order: what holds of it in every state
    /// that it reaches.
    pub open spec fn wf(&self) -> bool {
        crate::trace::inv(self@)
    }

    /// A session that has not had a turn yet. It imports the standard
    /// modules, and all that is public in `user_module`, where there is one.
    pub fn new(user_module: Option<&Module>) -> (repl: Repl)
        ensures
            repl@ == initial(
                match user_module {
                    Some(module) => Some(import_text(*module)),
                    None => None,
                },
            ),
            repl.wf(),
    {
        let user_import = match user_module {
            Some(module) => Some(import_public_types_and_values(module)),
            None => None,
        };
        let first = Session::new(user_import, crate::gleam_modules_names());
        let saved = first.duplicate();
        let repl = Repl {
            session: first,
            saved,
            iter: (0, 0),
            var_index: 0,
            phase: Phase::Idle,
            goal: Goal::Check,
            type_: false,
            input: String::new(),
            items: Vec::new(),
            name: String::new(),
            unit: None,
        };
        assert(repl@.items =~= Seq::empty());
        repl
    }

    /// What the session holds.
    pub fn session(&self) -> (session: &Session)
        ensures
            session@ == self@.session,
    {
        &self.session
    }

    /// The slot that the next variable gets.
    pub fn next_slot(&self) -> (slot: usize)
        ensures
            slot == self@.next_slot,
    {
        self.var_index
    }

    /// What the engine waits for.
    pub fn phase(&self) -> (phase: Phase)
        ensures
            phase == self@.phase,
    {
        self.phase
    }

    /// The name of the unit of the current item.
    pub fn module_name(&self) -> (name: String)
        ensures
            name@ == unit_name(self@.turn, self@.item),
    {
        let mut name = String::from_str("repl");
        push_decimal(&mut name, self.iter.0);
        name.append("_");
        push_decimal(&mut name, self.iter.1);
        name
    }

    fn file_name(&self) -> (name: String)
        ensures
            name@ == unit_file(self@.turn, self@.item),
    {
        let mut name = self.module_name();
        name.append(".gleam");
        name
    }

    fn stage(&mut self, goal: Goal, text: String) -> (action: Action)
        ensures
            (final(self)@, action@) == stage(old(self)@, goal, text@),
    {
        self.phase = Phase::Staging;
        self.goal = goal;
        Action::WriteSource { file: self.file_name(), text }
    }

    fn say(&mut self, text: String) -> (action: Action)
        ensures
            (final(self)@, action@) == say(old(self)@, text@),
    {
        self.phase = Phase::Saying;
        Action::Print { text }
    }

    fn advance(&mut self) -> (action: Action)
        ensures
            (final(self)@, action@) == advance(old(self)@),
    {
        let at = self.iter.1;
        if at >= self.items.len() {
            self.phase = Phase::Idle;
            return Action::Finish(ReplOutput::StdOut);
        }
        assert(self@.items[at as int] == self.items@[at as int].deep_view());
        self.iter.1 = at + 1;
        match &self.items[at] {
            TurnItem::Constant { code } => {
                self.session.push_const(code.clone());
                let text = self.session.build_source();
                self.stage(Goal::Check, text)
            },
            TurnItem::TypeDeclaration { code } => {
                self.session.push_type(code.clone());
                let text = self.session.build_source();
                self.stage(Goal::Check, text)
            },
            TurnItem::FunctionDeclaration { name, params, head, body } => {
                let lets = self.session.gen_lets(params);
                let mut code = head.clone();
                code.append("\n  ");
                code.append(lets.as_str());
                code.append(body.as_str());
                self.session.insert_fn(name.clone(), code);
                let text = self.session.build_source();
                self.stage(Goal::Check, text)
            },
            TurnItem::LetBinding { name, code } => {
                let mut text = self.session.build_source();
                self.session.add_let(&mut text, code.as_str());
                self.name = name.clone();
                self.stage(Goal::Bind, text)
            },
            TurnItem::DiscardBinding { code } => {
                let mut text = self.session.build_source();
                self.session.add_expr(&mut text, code.as_str());
                self.stage(Goal::Evaluate, text)
            },
            TurnItem::Expression { code } => {
                let mut text = self.session.build_source();
                self.session.add_expr(&mut text, code.as_str());
                self.stage(Goal::Evaluate, text)
            },
            TurnItem::Import => self.say(String::from_str("imports are not supported.")),
            TurnItem::UseStatement => self.say(
                String::from_str("use statements are not supported outside blocks."),
            ),
            TurnItem::PatternBinding => self.say(
                String::from_str("patterns are not supported in let statements."),
            ),
            TurnItem::Assertion => self.say(String::from_str("assert is not supported.")),
        }
    }

    fn roll_back(&mut self, failure: Failure) -> (action: Action)
        ensures
            (final(self)@, action@) == roll_back(old(self)@, failure),
    {
        self.session = self.saved.duplicate();
        self.phase = Phase::Idle;
        Action::Fail(failure)
    }

    fn on_line(&mut self, line: String) -> (action: Action)
        requires
            old(self)@.phase == Phase::Idle,
        ensures
            (final(self)@, action@) == step(old(self)@, Event::Line(line)),
    {
        let bare = trim(line.as_str());
        if same_text(bare, QUIT) {
            return Action::Finish(ReplOutput::Quit);
        }
        if self.iter.0 == usize::MAX {
            return Action::Refuse;
        }
        self.iter = (self.iter.0 + 1, 0);
        match strip_prefix(bare, TYPE) {
            Some(expr) => {
                self.type_ = true;
                self.input = String::from_str(expr);
            },
            None => {
                self.type_ = false;
                self.input = line;
            },
        }
        self.phase = Phase::Parsing;
        let mut path = String::from_str("/src/");
        let name = self.module_name();
        path.append(name.as_str());
        path.append(".gleam");
        Action::Parse { path, text: self.input.clone() }
    }

    fn on_parsed(&mut self, found: Vec<TurnItem>, Ghost(items): Ghost<Seq<ReplItem>>) -> (action:
        Action)
        requires
            found.deep_view() == items_of(items, old(self)@.input),
        ensures
            (final(self)@, action@) == on_parsed(old(self)@, items),
    {
        self.saved = self.session.duplicate();
        self.items = found;
        if !self.type_ {
            return self.advance();
        }
        if self.items.len() == 1 {
            assert(self@.items[0] == self.items@[0].deep_view());
            match &self.items[0] {
                TurnItem::Expression { .. } | TurnItem::LetBinding { .. } => {
                    self.iter.1 = 1;
                    let mut text = self.session.build_source();
                    self.session.add_expr(&mut text, self.input.as_str());
                    return self.stage(Goal::Query, text);
                },
                TurnItem::Import
                | TurnItem::Constant { .. }
                | TurnItem::TypeDeclaration { .. }
                | TurnItem::FunctionDeclaration { .. } => {
                    self.items = Vec::new();
                    assert(self@.items =~= Seq::empty());
                    let mut text = String::from_str(TYPE);
                    text.append("command cannot be used with definitions.");
                    return self.say(text);
                },
                _ => {},
            }
        }
        self.items = Vec::new();
        assert(self@.items =~= Seq::empty());
        let mut text = String::from_str(TYPE);
        text.append("command expects exactly one expression.");
        self.say(text)
    }

    fn on_cleaned(&mut self) -> (action: Action)
        ensures
            (final(self)@, action@) == on_cleaned(old(self)@),
    {
        match self.unit {
            None => self.roll_back(Failure::Compile),
            Some(at) => match self.goal {
                Goal::Check => self.advance(),
                Goal::Query => {
                    self.phase = Phase::Typing;
                    Action::FunctionType { unit: at, function: String::from_str(REPL_MAIN) }
                },
                _ => {
                    self.phase = Phase::Running;
                    Action::Run {
                        module: self.module_name(),
                        main: MainFunction::ReplMain,
                        show_output: false,
                    }
                },
            },
        }
    }

    fn on_type(&mut self, ty: Type) -> (action: Action)
        requires
            lettered(ty, Seq::empty()),
            old(self)@.goal == Goal::Query || old(self)@.next_slot < usize::MAX,
        ensures
            (final(self)@, action@) == on_type(old(self)@, ty),
    {
        let text = type_to_string(&ty);
        match self.goal {
            Goal::Query => self.say(text),
            _ => {
                let value = Value { index: self.var_index, type_: text };
                self.session.insert_var(self.name.clone(), value);
                self.var_index = self.var_index + 1;
                self.advance()
            },
        }
    }

    fn on_compiled(&mut self, names: Vec<String>) -> (action: Action)
        requires
            old(self)@.phase == Phase::Compiling,
        ensures
            (final(self)@, action@) == step(old(self)@, Event::Compiled(names)),
    {
        let name = self.module_name();
        proof {
            crate::gleam::lemma_name_place(names.deep_view(), name@);
        }
        let ghost place = name_place(names.deep_view(), name@);
        match get_module(&names, name.as_str()) {
            Some(at) => {
                assert(at == place);
                assert(accepts(old(self)@, Event::Compiled(names)));
                self.unit = Some(at);
                self.phase = Phase::Cleaning;
                let action = Action::DeleteSource { file: self.file_name() };
                assert(self@ == (ReplView {
                    phase: Phase::Cleaning,
                    unit: Some(place),
                    ..old(self)@
                }));
                assert(action@ == ActionView::DeleteSource {
                    file: unit_file(old(self)@.turn, old(self)@.item),
                });
                action
            },
            None => {
                assert(!accepts(old(self)@, Event::Compiled(names)));
                Action::Refuse
            },
        }
    }

    fn on_done(&mut self) -> (action: Action)
        ensures
            (final(self)@, action@) == step(old(self)@, Event::Done),
    {
        match self.phase {
            Phase::Saying => self.advance(),
            Phase::Staging => {
                self.phase = Phase::Compiling;
                Action::Compile
            },
            Phase::Cleaning => self.on_cleaned(),
            Phase::Running => match self.goal {
                Goal::Bind => {
                    self.phase = Phase::Measuring;
                    Action::StoreLength
                },
                _ => self.advance(),
            },
            _ => Action::Refuse,
        }
    }

    fn on_length(&mut self, length: usize) -> (action: Action)
        ensures
            (final(self)@, action@) == step(old(self)@, Event::StoreLength(length)),
    {
        match (self.phase, self.unit) {
            (Phase::Measuring, Some(at)) => {
                if length > self.var_index {
                    self.phase = Phase::Typing;
                    Action::FunctionType { unit: at, function: String::from_str(REPL_MAIN) }
                } else {
                    self.advance()
                }
            },
            _ => Action::Refuse,
        }
    }

    /// Takes what has happened and says what is to be done next.
    pub fn run(&mut self, event: Event) -> (action: Action)
        ensures
            (final(self)@, action@) == step(old(self)@, event),
            old(self).wf() ==> final(self).wf(),
    {
        proof {
            if self.wf() {
                crate::trace::lemma_step_inv(self@, event);
            }
        }
        match event {
            Event::Line(line) => {
                if self.phase == Phase::Idle {
                    self.on_line(line)
                } else {
                    Action::Refuse
                }
            },
            Event::Parsed(items) => {
                if self.phase == Phase::Parsing {
                    match turn_items(&items, self.input.as_str()) {
                        Some(found) => self.on_parsed(found, Ghost(items@)),
                        None => Action::Refuse,
                    }
                } else {
                    Action::Refuse
                }
            },
            Event::ParseFailed => {
                if self.phase == Phase::Parsing {
                    self.phase = Phase::Idle;
                    Action::Fail(Failure::Parse)
                } else {
                    Action::Refuse
                }
            },
            Event::Done => self.on_done(),
            Event::Compiled(names) => {
                if self.phase == Phase::Compiling {
                    self.on_compiled(names)
                } else {
                    Action::Refuse
                }
            },
            Event::CompileFailed => {
                if self.phase == Phase::Compiling {
                    self.unit = None;
                    self.phase = Phase::Cleaning;
                    Action::DeleteSource { file: self.file_name() }
                } else {
                    Action::Refuse
                }
            },
            Event::StoreLength(length) => self.on_length(length),
            Event::FunctionType(ty) => {
                let fits = match self.goal {
                    Goal::Query => true,
                    _ => self.var_index < usize::MAX,
                };
                if self.phase == Phase::Typing && fits && can_show(&ty) {
                    self.on_type(ty)
                } else {
                    Action::Refuse
                }
            },
        }
    }
}

} // verus!

//! The declarations and bindings that a session has gathered, and the
//! program text that is built from them for each turn.

use crate::engine::REPL_MAIN;
use crate::parser::copy_names;
use crate::text::{decimal_text, has_text, push_decimal, same_text};
use vstd::prelude::*;

verus! {

/// The two external functions that every generated program declares: the
/// first stores a value for later turns, the second reads one back.
pub const REPL_SAVE_LOAD_FNS: &'static str = r#"
@external(javascript, "./sgleam_ffi.mjs", "repl_save")
pub fn repl_save(value: a) -> a

@external(javascript, "./sgleam_ffi.mjs", "repl_load")
pub fn repl_load(index: Int) -> a
"#;

/// Where the value of a variable is kept, and its type as it is written.
#[derive(Debug)]
pub struct Value {
    pub index: usize,
    pub type_: String,
}

/// A function that the session holds: its name and its text.
#[derive(Debug)]
pub struct Function {
    pub name: String,
    pub code: String,
}

/// A variable that the session holds.
#[derive(Debug)]
pub struct Variable {
    pub name: String,
    pub value: Value,
}

/// A `Function` as a mathematical value.
pub struct FunctionView {
    pub name: Seq<char>,
    pub code: Seq<char>,
}

/// A `Variable` as a mathematical value.
pub struct VariableView {
    pub name: Seq<char>,
    pub index: int,
    pub type_: Seq<char>,
}

impl DeepView for Function {
    type V = FunctionView;

    open spec fn deep_view(&self) -> FunctionView {
        FunctionView { name: self.name@, code: self.code@ }
    }
}

impl DeepView for Variable {
    type V = VariableView;

    open spec fn deep_view(&self) -> VariableView {
        VariableView {
            name: self.name@,
            index: self.value.index as int,
            type_: self.value.type_@,
        }
    }
}

/// What a session has gathered over its turns.
#[derive(Debug)]
pub struct Session {
    /// The import that opens the user's own module, where there is one.
    pub user_import: Option<String>,
    /// The modules that every program imports.
    pub imports: Vec<String>,
    /// The constants, in the order in which they were accepted.
    pub consts: Vec<String>,
    /// The type declarations, in the order in which they were accepted.
    pub types: Vec<String>,
    /// The functions; no two have the same name.
    pub fns: Vec<Function>,
    /// The variables; no two have the same name.
    pub vars: Vec<Variable>,
}

/// A `Session` as a mathematical value.
pub struct SessionView {
    pub user_import: Option<Seq<char>>,
    pub imports: Seq<Seq<char>>,
    pub consts: Seq<Seq<char>>,
    pub types: Seq<Seq<char>>,
    pub fns: Seq<FunctionView>,
    pub vars: Seq<VariableView>,
}

impl View for Session {
    type V = SessionView;

    open spec fn view(&self) -> SessionView {
        SessionView {
            user_import: self.user_import.deep_view(),
            imports: self.imports.deep_view(),
            consts: self.consts.deep_view(),
            types: self.types.deep_view(),
            fns: self.fns.deep_view(),
            vars: self.vars.deep_view(),
        }
    }
}

/// The first `upto` of `lines`, each followed by a line break.
pub open spec fn lines_text(lines: Seq<Seq<char>>, upto: int) -> Seq<char>
    decreases upto,
{
    if upto <= 0 || upto > lines.len() {
        Seq::empty()
    } else {
        lines_text(lines, upto - 1) + lines[upto - 1] + "\n"@
    }
}

/// An import clause for each of the first `upto` of `imports`.
pub open spec fn imports_text(imports: Seq<Seq<char>>, upto: int) -> Seq<char>
    decreases upto,
{
    if upto <= 0 || upto > imports.len() {
        Seq::empty()
    } else {
        imports_text(imports, upto - 1) + "import "@ + imports[upto - 1] + "\n"@
    }
}

/// The text of the first `upto` of `fns`, each followed by a line break.
pub open spec fn fns_text(fns: Seq<FunctionView>, upto: int) -> Seq<char>
    decreases upto,
{
    if upto <= 0 || upto > fns.len() {
        Seq::empty()
    } else {
        fns_text(fns, upto - 1) + fns[upto - 1].code + "\n"@
    }
}

/// The line of the user's import, where there is one.
pub open spec fn user_import_text(user_import: Option<Seq<char>>) -> Seq<char> {
    match user_import {
        Some(user) => user + "\n"@,
        None => Seq::empty(),
    }
}

/// The program that holds all that the session has gathered: the two
/// external functions, the imports, the constants, the types and the
/// functions, in this order.
pub open spec fn source_text(s: SessionView) -> Seq<char> {
    REPL_SAVE_LOAD_FNS@ + user_import_text(s.user_import) + imports_text(
        s.imports,
        s.imports.len() as int,
    ) + lines_text(s.consts, s.consts.len() as int) + lines_text(s.types, s.types.len() as int)
        + fns_text(s.fns, s.fns.len() as int)
}

/// The line that binds a variable again to the value that an earlier turn
/// stored: a call of a function without parameters, of the variable's type,
/// that loads the value.
pub open spec fn shim_text(var: VariableView) -> Seq<char> {
    "  let "@ + var.name + " = fn () -> "@ + var.type_ + " { repl_load("@ + decimal_text(
        var.index as nat,
    ) + ") } ()\n"@
}

/// The lines that bind again those of the first `upto` of `vars` whose name
/// is not in `exclude`.
pub open spec fn lets_text(vars: Seq<VariableView>, exclude: Seq<Seq<char>>, upto: int) -> Seq<
    char,
>
    decreases upto,
{
    if upto <= 0 || upto > vars.len() {
        Seq::empty()
    } else if has_text(exclude, vars[upto - 1].name) {
        lets_text(vars, exclude, upto - 1)
    } else {
        lets_text(vars, exclude, upto - 1) + shim_text(vars[upto - 1])
    }
}

/// The lines that bind all of `vars` again.
pub open spec fn all_lets(vars: Seq<VariableView>) -> Seq<char> {
    lets_text(vars, Seq::empty(), vars.len() as int)
}

/// The function that a turn runs to show the value of `expr`: it binds the
/// variables again and prints what `expr` gives.
pub open spec fn expr_text(vars: Seq<VariableView>, expr: Seq<char>) -> Seq<char> {
    "pub fn "@ + REPL_MAIN@ + "() {\n  "@ + all_lets(vars) + "\n  io.debug({\n"@ + expr
        + "\n  })\n}\n"@
}

/// The function that a turn runs to bind a variable: it binds the earlier
/// variables again, stores what `code` gives, and prints it. The value is
/// stored only once `code` has been evaluated to the end.
pub open spec fn let_text(vars: Seq<VariableView>, code: Seq<char>) -> Seq<char> {
    "pub fn "@ + REPL_MAIN@ + "() {\n  "@ + all_lets(vars) + "\n  io.debug(repl_save({\n"@ + code
        + "\n  }))\n}\n"@
}

/// The text of a function that the user declared, with the variables bound
/// again at the start of its body, but for those that its parameters hide.
pub open spec fn fn_text_with_lets(
    vars: Seq<VariableView>,
    params: Seq<Seq<char>>,
    head: Seq<char>,
    body: Seq<char>,
) -> Seq<char> {
    head + "\n  "@ + lets_text(vars, params, vars.len() as int) + body
}

/// The place of the first function called `name`; the number of functions
/// where there is none.
pub open spec fn fn_place(fns: Seq<FunctionView>, name: Seq<char>) -> int
    decreases fns.len(),
{
    if fns.len() == 0 {
        0
    } else if fns[0].name == name {
        0
    } else {
        1 + fn_place(fns.drop_first(), name)
    }
}

/// The place of the first variable called `name`; the number of variables
/// where there is none.
pub open spec fn var_place(vars: Seq<VariableView>, name: Seq<char>) -> int
    decreases vars.len(),
{
    if vars.len() == 0 {
        0
    } else if vars[0].name == name {
        0
    } else {
        1 + var_place(vars.drop_first(), name)
    }
}

/// `fns` with `f` in the place of the function of its name, or at the end
/// where there is none of that name.
pub open spec fn with_fn(fns: Seq<FunctionView>, f: FunctionView) -> Seq<FunctionView> {
    let at = fn_place(fns, f.name);
    if at < fns.len() {
        fns.update(at, f)
    } else {
        fns.push(f)
    }
}

/// `vars` with `var` in the place of the variable of its name, or at the end
/// where there is none of that name.
pub open spec fn with_var(vars: Seq<VariableView>, var: VariableView) -> Seq<VariableView> {
    let at = var_place(vars, var.name);
    if at < vars.len() {
        vars.update(at, var)
    } else {
        vars.push(var)
    }
}

/// Whether no two of `fns` have the same name.
pub open spec fn fn_names_differ(fns: Seq<FunctionView>) -> bool {
    forall|i: int, j: int| 0 <= i < j < fns.len() ==> fns[i].name != fns[j].name
}

/// Whether no two of `vars` have the same name.
pub open spec fn var_names_differ(vars: Seq<VariableView>) -> bool {
    forall|i: int, j: int| 0 <= i < j < vars.len() ==> vars[i].name != vars[j].name
}

/// Whether `names` holds `name`.
pub fn contains_name(names: &Vec<String>, name: &str) -> (found: bool)
    ensures
        found == has_text(names.deep_view(), name@),
{
    let mut i: usize = 0;
    while i < names.len()
        invariant
            i <= names.len(),
            forall|k: int| 0 <= k < i ==> names@[k]@ != name@,
        decreases names.len() - i,
    {
        if same_text(names[i].as_str(), name) {
            assert(names.deep_view()[i as int] == name@);
            return true;
        }
        i += 1;
    }
    assert forall|k: int| 0 <= k < names.deep_view().len() implies names.deep_view()[k]
        != name@ by {
        assert(names.deep_view()[k] == names@[k]@);
    }
    false
}

impl Session {
    /// Whether the session is in order: no two functions and no two
    /// variables have the same name.
    pub open spec fn wf(&self) -> bool {
        &&& fn_names_differ(self@.fns)
        &&& var_names_differ(self@.vars)
    }

    /// A session that holds nothing but `imports` and the user's import.
    pub fn new(user_import: Option<String>, imports: Vec<String>) -> (session: Session)
        ensures
            session.wf(),
            session@ == (SessionView {
                user_import: user_import.deep_view(),
                imports: imports.deep_view(),
                consts: Seq::empty(),
                types: Seq::empty(),
                fns: Seq::empty(),
                vars: Seq::empty(),
            }),
    {
        let session = Session {
            user_import,
            imports,
            consts: Vec::new(),
            types: Vec::new(),
            fns: Vec::new(),
            vars: Vec::new(),
        };
        assert(session@.consts =~= Seq::empty());
        assert(session@.types =~= Seq::empty());
        assert(session@.fns =~= Seq::empty());
        assert(session@.vars =~= Seq::empty());
        session
    }

    /// The program that holds all that the session has gathered.
    pub fn build_source(&self) -> (src: String)
        ensures
            src@ == source_text(self@),
    {
        let mut src = String::new();
        src.append(REPL_SAVE_LOAD_FNS);
        assert(src@ =~= REPL_SAVE_LOAD_FNS@);
        self.add_imports(&mut src);
        self.add_consts(&mut src);
        self.add_types(&mut src);
        self.add_fns(&mut src);
        src
    }

    /// Appends the user's import and an import clause for each module.
    pub fn add_imports(&self, src: &mut String)
        ensures
            final(src)@ == old(src)@ + user_import_text(self@.user_import) + imports_text(
                self@.imports,
                self@.imports.len() as int,
            ),
    {
        match &self.user_import {
            Some(user) => {
                src.append(user.as_str());
                src.append("\n");
            },
            None => {},
        }
        assert(src@ =~= old(src)@ + user_import_text(self@.user_import));
        let ghost start = src@;
        let mut i: usize = 0;
        while i < self.imports.len()
            invariant
                i <= self.imports.len(),
                src@ == start + imports_text(self@.imports, i as int),
            decreases self.imports.len() - i,
        {
            let ghost before = src@;
            src.append("import ");
            src.append(self.imports[i].as_str());
            src.append("\n");
            assert(self@.imports[i as int] == self.imports@[i as int]@);
            assert(src@ =~= start + imports_text(self@.imports, i + 1));
            i += 1;
        }
    }

    /// Appends the constants, each on a line of its own.
    pub fn add_consts(&self, src: &mut String)
        ensures
            final(src)@ == old(src)@ + lines_text(self@.consts, self@.consts.len() as int),
    {
        add_lines(&self.consts, src);
    }

    /// Appends the type declarations, each on a line of its own.
    pub fn add_types(&self, src: &mut String)
        ensures
            final(src)@ == old(src)@ + lines_text(self@.types, self@.types.len() as int),
    {
        add_lines(&self.types, src);
    }

    /// Appends the functions, each followed by a line break.
    pub fn add_fns(&self, src: &mut String)
        ensures
            final(src)@ == old(src)@ + fns_text(self@.fns, self@.fns.len() as int),
    {
        let mut i: usize = 0;
        assert(src@ =~= old(src)@ + fns_text(self@.fns, 0));
        while i < self.fns.len()
            invariant
                i <= self.fns.len(),
                src@ == old(src)@ + fns_text(self@.fns, i as int),
            decreases self.fns.len() - i,
        {
            src.append(self.fns[i].code.as_str());
            src.append("\n");
            assert(self@.fns[i as int] == self.fns@[i as int].deep_view());
            assert(src@ =~= old(src)@ + fns_text(self@.fns, i + 1));
            i += 1;
        }
    }

    /// The lines that bind again the variables whose name is not in
    /// `exclude`.
    pub fn gen_lets(&self, exclude: &Vec<String>) -> (lets: String)
        ensures
            lets@ == lets_text(self@.vars, exclude.deep_view(), self@.vars.len() as int),
    {
        let mut lets = String::new();
        let mut i: usize = 0;
        while i < self.vars.len()
            invariant
                i <= self.vars.len(),
                lets@ == lets_text(self@.vars, exclude.deep_view(), i as int),
            decreases self.vars.len() - i,
        {
            let var = &self.vars[i];
            assert(self@.vars[i as int] == var.deep_view());
            if !contains_name(exclude, var.name.as_str()) {
                lets.append("  let ");
                lets.append(var.name.as_str());
                lets.append(" = fn () -> ");
                lets.append(var.value.type_.as_str());
                lets.append(" { repl_load(");
                push_decimal(&mut lets, var.value.index);
                lets.append(") } ()\n");
                assert(lets@ =~= lets_text(self@.vars, exclude.deep_view(), i as int) + shim_text(
                    var.deep_view(),
                ));
            }
            i += 1;
        }
        lets
    }

    /// Appends the function that shows the value of `expr`.
    pub fn add_expr(&self, src: &mut String, expr: &str)
        ensures
            final(src)@ == old(src)@ + expr_text(self@.vars, expr@),
    {
        let none: Vec<String> = Vec::new();
        assert(none.deep_view() =~= Seq::<Seq<char>>::empty());
        let lets = self.gen_lets(&none);
        src.append("pub fn ");
        src.append(REPL_MAIN);
        src.append("() {\n  ");
        src.append(lets.as_str());
        src.append("\n  io.debug({\n");
        src.append(expr);
        src.append("\n  })\n}\n");
        assert(src@ =~= old(src)@ + expr_text(self@.vars, expr@));
    }

    /// Appends the function that stores and shows the value of `code`.
    pub fn add_let(&self, src: &mut String, code: &str)
        ensures
            final(src)@ == old(src)@ + let_text(self@.vars, code@),
    {
        let none: Vec<String> = Vec::new();
        assert(none.deep_view() =~= Seq::<Seq<char>>::empty());
        let lets = self.gen_lets(&none);
        src.append("pub fn ");
        src.append(REPL_MAIN);
        src.append("() {\n  ");
        src.append(lets.as_str());
        src.append("\n  io.debug(repl_save({\n");
        src.append(code);
        src.append("\n  }))\n}\n");
        assert(src@ =~= old(src)@ + let_text(self@.vars, code@));
    }
}

/// The place of a name lies among the functions or just behind them; the
/// function in that place has the name, and none before it has.
pub proof fn lemma_fn_place(fns: Seq<FunctionView>, name: Seq<char>)
    ensures
        0 <= fn_place(fns, name) <= fns.len(),
        fn_place(fns, name) < fns.len() ==> fns[fn_place(fns, name)].name == name,
        forall|k: int| 0 <= k < fn_place(fns, name) ==> (#[trigger] fns[k]).name != name,
    decreases fns.len(),
{
    if fns.len() == 0 {
    } else if fns[0].name == name {
    } else {
        let rest = fns.drop_first();
        lemma_fn_place(rest, name);
        assert forall|k: int| 0 <= k < fn_place(fns, name) implies (#[trigger] fns[k]).name
            != name by {
            if k > 0 {
                assert(rest[k - 1] == fns[k]);
            }
        }
    }
}

/// The place of a name lies among the variables or just behind them; the
/// variable in that place has the name, and none before it has.
pub proof fn lemma_var_place(vars: Seq<VariableView>, name: Seq<char>)
    ensures
        0 <= var_place(vars, name) <= vars.len(),
        var_place(vars, name) < vars.len() ==> vars[var_place(vars, name)].name == name,
        forall|k: int| 0 <= k < var_place(vars, name) ==> (#[trigger] vars[k]).name != name,
    decreases vars.len(),
{
    if vars.len() == 0 {
    } else if vars[0].name == name {
    } else {
        let rest = vars.drop_first();
        lemma_var_place(rest, name);
        assert forall|k: int| 0 <= k < var_place(vars, name) implies (#[trigger] vars[k]).name
            != name by {
            if k > 0 {
                assert(rest[k - 1] == vars[k]);
            }
        }
    }
}

proof fn lemma_fn_place_is(fns: Seq<FunctionView>, name: Seq<char>, at: int)
    requires
        0 <= at <= fns.len(),
        forall|k: int| 0 <= k < at ==> (#[trigger] fns[k]).name != name,
        at < fns.len() ==> fns[at].name == name,
    ensures
        fn_place(fns, name) == at,
    decreases fns.len(),
{
    if fns.len() > 0 && at > 0 {
        let rest = fns.drop_first();
        assert forall|k: int| 0 <= k < at - 1 implies (#[trigger] rest[k]).name != name by {
            assert(rest[k] == fns[k + 1]);
        }
        lemma_fn_place_is(rest, name, at - 1);
    }
}

/// A function that is declared again takes the place of the one that was
/// declared before under its name: the session then holds what it would
/// hold had only the second been declared, and so does every program built
/// from it.
pub proof fn lemma_redefinition(
    s: SessionView,
    name: Seq<char>,
    first: Seq<char>,
    second: Seq<char>,
)
    ensures
        with_fn(with_fn(s.fns, FunctionView { name, code: first }), FunctionView { name, code: second })
            == with_fn(s.fns, FunctionView { name, code: second }),
        source_text(
            SessionView {
                fns: with_fn(
                    with_fn(s.fns, FunctionView { name, code: first }),
                    FunctionView { name, code: second },
                ),
                ..s
            },
        ) == source_text(
            SessionView { fns: with_fn(s.fns, FunctionView { name, code: second }), ..s },
        ),
{
    let f1 = FunctionView { name, code: first };
    let f2 = FunctionView { name, code: second };
    let at = fn_place(s.fns, name);
    lemma_fn_place(s.fns, name);
    let once = with_fn(s.fns, f1);
    lemma_fn_place_is(once, name, at);
    assert(with_fn(once, f2) =~= with_fn(s.fns, f2));
}

/// Taking up a function keeps the names of the functions apart.
pub proof fn lemma_with_fn_differ(fns: Seq<FunctionView>, f: FunctionView)
    requires
        fn_names_differ(fns),
    ensures
        fn_names_differ(with_fn(fns, f)),
{
    lemma_fn_place(fns, f.name);
}

/// Taking up a variable keeps the names of the variables apart.
pub proof fn lemma_with_var_differ(vars: Seq<VariableView>, var: VariableView)
    requires
        var_names_differ(vars),
    ensures
        var_names_differ(with_var(vars, var)),
{
    lemma_var_place(vars, var.name);
}

fn find_fn(fns: &Vec<Function>, name: &str) -> (at: usize)
    ensures
        at == fn_place(fns.deep_view(), name@),
{
    let mut i: usize = 0;
    assert(fns.deep_view().skip(0) =~= fns.deep_view());
    while i < fns.len()
        invariant
            i <= fns.len(),
            fn_place(fns.deep_view(), name@) == i + fn_place(
                fns.deep_view().skip(i as int),
                name@,
            ),
        decreases fns.len() - i,
    {
        assert(fns.deep_view().skip(i as int)[0] == fns@[i as int].deep_view());
        if same_text(fns[i].name.as_str(), name) {
            return i;
        }
        assert(fns.deep_view().skip(i as int).drop_first() =~= fns.deep_view().skip(i + 1));
        i += 1;
    }
    i
}

fn find_var(vars: &Vec<Variable>, name: &str) -> (at: usize)
    ensures
        at == var_place(vars.deep_view(), name@),
{
    let mut i: usize = 0;
    assert(vars.deep_view().skip(0) =~= vars.deep_view());
    while i < vars.len()
        invariant
            i <= vars.len(),
            var_place(vars.deep_view(), name@) == i + var_place(
                vars.deep_view().skip(i as int),
                name@,
            ),
        decreases vars.len() - i,
    {
        assert(vars.deep_view().skip(i as int)[0] == vars@[i as int].deep_view());
        if same_text(vars[i].name.as_str(), name) {
            return i;
        }
        assert(vars.deep_view().skip(i as int).drop_first() =~= vars.deep_view().skip(i + 1));
        i += 1;
    }
    i
}

fn copy_fns(fns: &Vec<Function>) -> (copy: Vec<Function>)
    ensures
        copy.deep_view() == fns.deep_view(),
{
    let mut copy: Vec<Function> = Vec::new();
    let mut i: usize = 0;
    while i < fns.len()
        invariant
            i <= fns.len(),
            copy@.len() == i,
            forall|k: int| 0 <= k < i ==> copy@[k].deep_view() == fns@[k].deep_view(),
        decreases fns.len() - i,
    {
        copy.push(Function { name: fns[i].name.clone(), code: fns[i].code.clone() });
        i += 1;
    }
    assert(copy.deep_view() =~= fns.deep_view());
    copy
}

fn copy_vars(vars: &Vec<Variable>) -> (copy: Vec<Variable>)
    ensures
        copy.deep_view() == vars.deep_view(),
{
    let mut copy: Vec<Variable> = Vec::new();
    let mut i: usize = 0;
    while i < vars.len()
        invariant
            i <= vars.len(),
            copy@.len() == i,
            forall|k: int| 0 <= k < i ==> copy@[k].deep_view() == vars@[k].deep_view(),
        decreases vars.len() - i,
    {
        copy.push(
            Variable {
                name: vars[i].name.clone(),
                value: Value { index: vars[i].value.index, type_: vars[i].value.type_.clone() },
            },
        );
        i += 1;
    }
    assert(copy.deep_view() =~= vars.deep_view());
    copy
}

impl Session {
    /// A copy of the session.
    pub fn duplicate(&self) -> (copy: Session)
        ensures
            copy@ == self@,
            copy.wf() == self.wf(),
    {
        let user_import = match &self.user_import {
            Some(user) => Some(user.clone()),
            None => None,
        };
        Session {
            user_import,
            imports: copy_names(&self.imports),
            consts: copy_names(&self.consts),
            types: copy_names(&self.types),
            fns: copy_fns(&self.fns),
            vars: copy_vars(&self.vars),
        }
    }

    /// Takes up a constant, after those that are there.
    pub fn push_const(&mut self, code: String)
        ensures
            final(self)@ == (SessionView { consts: old(self)@.consts.push(code@), ..old(self)@ }),
            old(self).wf() ==> final(self).wf(),
    {
        self.consts.push(code);
        assert(self@.consts =~= old(self)@.consts.push(code@));
    }

    /// Takes up a type declaration, after those that are there.
    pub fn push_type(&mut self, code: String)
        ensures
            final(self)@ == (SessionView { types: old(self)@.types.push(code@), ..old(self)@ }),
            old(self).wf() ==> final(self).wf(),
    {
        self.types.push(code);
        assert(self@.types =~= old(self)@.types.push(code@));
    }

    /// Takes up a function: in the place of the one of its name, where there
    /// is one, else after those that are there.
    pub fn insert_fn(&mut self, name: String, code: String)
        ensures
            final(self)@ == (SessionView {
                fns: with_fn(old(self)@.fns, FunctionView { name: name@, code: code@ }),
                ..old(self)@
            }),
            old(self).wf() ==> final(self).wf(),
    {
        let at = find_fn(&self.fns, name.as_str());
        let ghost f = FunctionView { name: name@, code: code@ };
        proof {
            if self.wf() {
                lemma_with_fn_differ(self@.fns, f);
            }
        }
        if at < self.fns.len() {
            self.fns.set(at, Function { name, code });
            assert(self@.fns =~= old(self)@.fns.update(at as int, f));
        } else {
            self.fns.push(Function { name, code });
            assert(self@.fns =~= old(self)@.fns.push(f));
        }
    }

    /// Takes up a variable: in the place of the one of its name, where there
    /// is one, else after those that are there.
    pub fn insert_var(&mut self, name: String, value: Value)
        ensures
            final(self)@ == (SessionView {
                vars: with_var(
                    old(self)@.vars,
                    VariableView { name: name@, index: value.index as int, type_: value.type_@ },
                ),
                ..old(self)@
            }),
            old(self).wf() ==> final(self).wf(),
    {
        let at = find_var(&self.vars, name.as_str());
        let ghost var = VariableView {
            name: name@,
            index: value.index as int,
            type_: value.type_@,
        };
        proof {
            if self.wf() {
                lemma_with_var_differ(self@.vars, var);
            }
        }
        if at < self.vars.len() {
            self.vars.set(at, Variable { name, value });
            assert(self@.vars =~= old(self)@.vars.update(at as int, var));
        } else {
            self.vars.push(Variable { name, value });
            assert(self@.vars =~= old(self)@.vars.push(var));
        }
    }
}

fn add_lines(lines: &Vec<String>, src: &mut String)
    ensures
        final(src)@ == old(src)@ + lines_text(lines.deep_view(), lines@.len() as int),
{
    let mut i: usize = 0;
    assert(src@ =~= old(src)@ + lines_text(lines.deep_view(), 0));
    while i < lines.len()
        invariant
            i <= lines.len(),
            src@ == old(src)@ + lines_text(lines.deep_view(), i as int),
        decreases lines.len() - i,
    {
        src.append(lines[i].as_str());
        src.append("\n");
        assert(lines.deep_view()[i as int] == lines@[i as int]@);
        assert(src@ =~= old(src)@ + lines_text(lines.deep_view(), i + 1));
        i += 1;
    }
}

} // verus!

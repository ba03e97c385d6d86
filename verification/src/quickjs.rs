//! What the runtime is asked to evaluate, and where it finds its modules.

use crate::engine::MainFunction;
use crate::text::{chars_of, same_text, strip_prefix};
use vstd::prelude::*;

verus! {

/// The word for a truth value in a script.
pub open spec fn bool_text(b: bool) -> Seq<char> {
    if b {
        "true"@
    } else {
        "false"@
    }
}

/// The script that runs the entry point `main` of the unit `module`.
pub open spec fn main_script(module: Seq<char>, main: MainFunction, show_output: bool) -> Seq<
    char,
> {
    "import { try_main } from \"./sgleam/sgleam_ffi.mjs\";\nimport { "@ + main.name_text()
        + " } from \"./"@ + module + ".mjs\";\ntry_main("@ + main.name_text() + ", \""@
        + main.label_text() + "\", "@ + bool_text(show_output) + ");\n"@
}

/// Writes the script that runs the entry point `main` of the unit `module`.
/// The runtime is told the kind of the entry point, and whether to show
/// what it returns.
pub fn run_main(module: &str, main: MainFunction, show_output: bool) -> (script: String)
    ensures
        script@ == main_script(module@, main, show_output),
{
    let name = main.name();
    let mut code = String::from_str(
        "import { try_main } from \"./sgleam/sgleam_ffi.mjs\";\nimport { ",
    );
    code.append(name);
    code.append(" } from \"./");
    code.append(module);
    code.append(".mjs\";\ntry_main(");
    code.append(name);
    code.append(", \"");
    code.append(main.label());
    code.append("\", ");
    code.append(
        if show_output {
            "true"
        } else {
            "false"
        },
    );
    code.append(");\n");
    code
}

/// `s` with `to` in the place of each `from`.
pub open spec fn replaced(s: Seq<char>, from: char, to: char) -> Seq<char> {
    Seq::new(
        s.len(),
        |i: int|
            if s[i] == from {
                to
            } else {
                s[i]
            },
    )
}

/// Puts `to` in the place of each `from` in `s`.
pub fn replace(s: &str, from: char, to: char) -> (out: String)
    ensures
        out@ == replaced(s@, from, to),
{
    let v = chars_of(s);
    let mut out = String::new();
    let mut i: usize = 0;
    while i < v.len()
        invariant
            i <= v.len(),
            v@ == s@,
            out@ == replaced(s@, from, to).take(i as int),
        decreases v.len() - i,
    {
        out.push(
            if v[i] == from {
                to
            } else {
                v[i]
            },
        );
        assert(out@ =~= replaced(s@, from, to).take(i + 1));
        i += 1;
    }
    assert(out@ =~= replaced(s@, from, to));
    out
}

/// The name under which the script of the tests imports the unit `module`.
pub open spec fn import_name(module: Seq<char>) -> Seq<char> {
    replaced(module, '/', '_')
}

/// The import lines of the first `upto` of `modules`.
pub open spec fn test_imports(modules: Seq<Seq<char>>, upto: int) -> Seq<char>
    decreases upto,
{
    if upto <= 0 || upto > modules.len() {
        Seq::empty()
    } else {
        test_imports(modules, upto - 1) + "import * as "@ + import_name(modules[upto - 1])
            + " from \"./"@ + modules[upto - 1] + ".mjs\";\n"@
    }
}

/// The names of the first `upto` of `modules`, with `", "` between them.
pub open spec fn test_names(modules: Seq<Seq<char>>, upto: int) -> Seq<char>
    decreases upto,
{
    if upto <= 0 || upto > modules.len() {
        Seq::empty()
    } else if upto == 1 {
        import_name(modules[0])
    } else {
        test_names(modules, upto - 1) + ", "@ + import_name(modules[upto - 1])
    }
}

/// The script that runs the tests of the units `modules`.
pub open spec fn tests_script(modules: Seq<Seq<char>>) -> Seq<char> {
    "import { run_tests } from \"./sgleam/sgleam_ffi.mjs\";\n"@ + test_imports(
        modules,
        modules.len() as int,
    ) + "run_tests(["@ + test_names(modules, modules.len() as int) + "]);\n"@
}

/// Writes the script that runs the tests of the units `modules`: it imports
/// each of them under its name, with `_` for `/`, and hands them all to the
/// runner.
pub fn run_tests(modules: &Vec<String>) -> (script: String)
    ensures
        script@ == tests_script(modules.deep_view()),
{
    let mut src = String::from_str("import { run_tests } from \"./sgleam/sgleam_ffi.mjs\";\n");
    let mut names = String::new();
    let ghost start = src@;
    let mut i: usize = 0;
    while i < modules.len()
        invariant
            i <= modules.len(),
            src@ == start + test_imports(modules.deep_view(), i as int),
            names@ == test_names(modules.deep_view(), i as int),
        decreases modules.len() - i,
    {
        assert(modules.deep_view()[i as int] == modules@[i as int]@);
        let import = replace(modules[i].as_str(), '/', '_');
        src.append("import * as ");
        src.append(import.as_str());
        src.append(" from \"./");
        src.append(modules[i].as_str());
        src.append(".mjs\";\n");
        if i > 0 {
            names.append(", ");
        }
        names.append(import.as_str());
        assert(src@ =~= start + test_imports(modules.deep_view(), i + 1));
        assert(names@ =~= test_names(modules.deep_view(), i + 1));
        i += 1;
    }
    src.append("run_tests([");
    src.append(names.as_str());
    src.append("]);\n");
    src
}

/// Whether the message of an exception says that the run was interrupted.
pub fn is_interrupt(message: Option<&str>) -> (interrupted: bool)
    ensures
        interrupted == (message matches Some(m) && m@ == "interrupted"@),
{
    match message {
        Some(m) => same_text(m, "interrupted"),
        None => false,
    }
}

/// A line without the line break at its end: without a final line feed, and
/// without the carriage return before that.
pub open spec fn without_line_end(line: Seq<char>) -> Seq<char> {
    if line.len() > 0 && line.last() == '\n' {
        let rest = line.drop_last();
        if rest.len() > 0 && rest.last() == '\r' {
            rest.drop_last()
        } else {
            rest
        }
    } else {
        line
    }
}

/// What a program gets when it asks for a line of input: nothing at the end
/// of the input, else the line without its line break. `read` is the number
/// of bytes that were read into `buffer`.
pub fn getline(read: usize, buffer: &str) -> (line: Option<String>)
    ensures
        line.deep_view() == (if read == 0 {
            None
        } else {
            Some(without_line_end(buffer@))
        }),
{
    if read == 0 {
        return None;
    }
    let v = chars_of(buffer);
    let mut end = v.len();
    if end > 0 && v[end - 1] == '\n' {
        end -= 1;
        if end > 0 && v[end - 1] == '\r' {
            end -= 1;
        }
    }
    let line = String::from_str(buffer.substring_char(0, end));
    assert(line@ =~= without_line_end(buffer@));
    Some(line)
}

/// The path of the compiled form of the unit `module`.
pub fn compiled_path(module: &str) -> (path: String)
    ensures
        path@ == "/build/"@ + module@ + ".mjs"@,
{
    let mut path = String::from_str("/build/");
    path.append(module);
    path.append(".mjs");
    path
}

/// The kind of a component of a path.
#[derive(Debug, Clone, Copy, PartialEq, Eq, Structural)]
pub enum Component {
    /// A prefix or the root.
    Anchor,
    /// `.`
    CurDir,
    /// `..`
    ParentDir,
    /// A name.
    Normal,
}

/// The places of the components that are left of the first `upto` of
/// `components` when each `.` is dropped and each `..` is dropped together
/// with the name that is left before it, where one is.
pub open spec fn resolved(components: Seq<Component>, upto: int) -> Seq<usize>
    decreases upto,
{
    if upto <= 0 || upto > components.len() {
        Seq::empty()
    } else {
        let before = resolved(components, upto - 1);
        match components[upto - 1] {
            Component::ParentDir => if before.len() > 0 && components[before.last() as int]
                == Component::Normal {
                before.drop_last()
            } else {
                before
            },
            Component::CurDir => before,
            _ => before.push((upto - 1) as usize),
        }
    }
}

/// Tells which components of a path are left when it is made straight.
pub fn resolve_path(components: &Vec<Component>) -> (kept: Vec<usize>)
    ensures
        kept@ == resolved(components@, components@.len() as int),
{
    let mut kept: Vec<usize> = Vec::new();
    let mut i: usize = 0;
    while i < components.len()
        invariant
            i <= components.len(),
            kept@ == resolved(components@, i as int),
            forall|k: int| 0 <= k < kept@.len() ==> kept@[k] < i,
        decreases components.len() - i,
    {
        match components[i] {
            Component::ParentDir => {
                let n = kept.len();
                if n > 0 && components[kept[n - 1]] == Component::Normal {
                    kept.pop();
                }
            },
            Component::CurDir => {},
            _ => {
                kept.push(i);
            },
        }
        i += 1;
    }
    kept
}

/// How the path of a module is found.
#[derive(Debug)]
pub enum Resolution {
    /// It is `name` under the directory of the compiled units.
    UnderBase { name: String },
    /// It is `name` beside the module that imports it, made straight.
    BesideImporter { name: String },
}

/// A `Resolution` as a mathematical value.
pub enum ResolutionView {
    UnderBase { name: Seq<char> },
    BesideImporter { name: Seq<char> },
}

impl View for Resolution {
    type V = ResolutionView;

    open spec fn view(&self) -> ResolutionView {
        match self {
            Resolution::UnderBase { name } => ResolutionView::UnderBase { name: name@ },
            Resolution::BesideImporter { name } => ResolutionView::BesideImporter { name: name@ },
        }
    }
}

/// Where the module `name` is looked for that `base` imports. What a
/// script imports that is evaluated directly lies under the directory of
/// the compiled units, under its name without a leading `./`.
pub fn resolve(base: &str, name: &str) -> (found: Resolution)
    ensures
        found@ == (if base@ == "eval_script"@ {
            ResolutionView::UnderBase {
                name: if "./"@.is_prefix_of(name@) {
                    name@.skip("./"@.len() as int)
                } else {
                    name@
                },
            }
        } else {
            ResolutionView::BesideImporter { name: name@ }
        }),
{
    if same_text(base, "eval_script") {
        match strip_prefix(name, "./") {
            Some(rest) => Resolution::UnderBase { name: String::from_str(rest) },
            None => Resolution::UnderBase { name: String::from_str(name) },
        }
    } else {
        Resolution::BesideImporter { name: String::from_str(name) }
    }
}

} // verus!

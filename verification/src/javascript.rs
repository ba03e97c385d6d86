//! The scripts of the runtime that knows `main` alone.

use crate::quickjs::bool_text;
use vstd::prelude::*;

verus! {

/// What the entry point of a program gets as its input.
#[derive(Debug, Clone, Copy, PartialEq, Eq, Structural)]
pub enum MainInput {
    Nothing,
    Stdin,
    StdinLines,
}

impl MainInput {
    /// The name of the variant, as the runtime is told it.
    pub open spec fn label_text(self) -> Seq<char> {
        match self {
            MainInput::Nothing => "Nothing"@,
            MainInput::Stdin => "Stdin"@,
            MainInput::StdinLines => "StdinLines"@,
        }
    }

    /// The name of the variant.
    pub fn label(&self) -> (label: &'static str)
        ensures
            label@ == self.label_text(),
    {
        match self {
            MainInput::Nothing => "Nothing",
            MainInput::Stdin => "Stdin",
            MainInput::StdinLines => "StdinLines",
        }
    }
}

/// The script that runs `main` of the unit `module` on the input `input`.
pub open spec fn main_script(module: Seq<char>, input: MainInput, show_output: bool) -> Seq<char> {
    "import { try_main } from \"./sgleam_ffi.mjs\";\nimport { main } from \"./"@ + module
        + ".mjs\";\ntry_main(main, \""@ + input.label_text() + "\", "@ + bool_text(show_output)
        + ");\n"@
}

/// Writes the script that runs `main` of the unit `module`.
pub fn run_main(module: &str, input: MainInput, show_output: bool) -> (script: String)
    ensures
        script@ == main_script(module@, input, show_output),
{
    let mut code = String::from_str(
        "import { try_main } from \"./sgleam_ffi.mjs\";\nimport { main } from \"./",
    );
    code.append(module);
    code.append(".mjs\";\ntry_main(main, \"");
    code.append(input.label());
    code.append("\", ");
    code.append(
        if show_output {
            "true"
        } else {
            "false"
        },
    );
    code.append(");\n");
    code
}

/// The import lines of the first `upto` of `modules`.
pub open spec fn test_imports(modules: Seq<Seq<char>>, upto: int) -> Seq<char>
    decreases upto,
{
    if upto <= 0 || upto > modules.len() {
        Seq::empty()
    } else {
        test_imports(modules, upto - 1) + "import * as "@ + modules[upto - 1] + " from \"./"@
            + modules[upto - 1] + ".mjs\";\n"@
    }
}

/// The first `upto` of `modules`, with `", "` between them.
pub open spec fn joined(modules: Seq<Seq<char>>, upto: int) -> Seq<char>
    decreases upto,
{
    if upto <= 0 || upto > modules.len() {
        Seq::empty()
    } else if upto == 1 {
        modules[0]
    } else {
        joined(modules, upto - 1) + ", "@ + modules[upto - 1]
    }
}

/// The script that runs the tests of the units `modules`.
pub open spec fn tests_script(modules: Seq<Seq<char>>) -> Seq<char> {
    "import { run_tests } from \"./sgleam_ffi.mjs\";\n"@ + test_imports(
        modules,
        modules.len() as int,
    ) + "run_tests(["@ + joined(modules, modules.len() as int) + "]);\n"@
}

/// Writes the script that runs the tests of the units `modules`, each
/// imported under its own name.
pub fn run_tests(modules: &Vec<String>) -> (script: String)
    ensures
        script@ == tests_script(modules.deep_view()),
{
    let mut src = String::from_str("import { run_tests } from \"./sgleam_ffi.mjs\";\n");
    let mut names = String::new();
    let ghost start = src@;
    let mut i: usize = 0;
    while i < modules.len()
        invariant
            i <= modules.len(),
            src@ == start + test_imports(modules.deep_view(), i as int),
            names@ == joined(modules.deep_view(), i as int),
        decreases modules.len() - i,
    {
        assert(modules.deep_view()[i as int] == modules@[i as int]@);
        src.append("import * as ");
        src.append(modules[i].as_str());
        src.append(" from \"./");
        src.append(modules[i].as_str());
        src.append(".mjs\";\n");
        if i > 0 {
            names.append(", ");
        }
        names.append(modules[i].as_str());
        assert(src@ =~= start + test_imports(modules.deep_view(), i + 1));
        assert(names@ =~= joined(modules.deep_view(), i + 1));
        i += 1;
    }
    src.append("run_tests([");
    src.append(names.as_str());
    src.append("]);\n");
    src
}

} // verus!

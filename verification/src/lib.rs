//! A session engine for a language that is compiled in whole programs: each
//! line that the user enters is made into a complete program together with
//! all that earlier lines declared, and the values of variables are carried
//! from one turn to the next through a store that the runtime keeps.

use vstd::prelude::*;

pub mod engine;
pub mod error;
pub mod exports;
pub mod gleam;
pub mod javascript;
pub mod parser;
pub mod quickjs;
pub mod repl;
pub mod run;
pub mod source;
pub mod text;
pub mod trace;

verus! {

/// The version of this program.
pub const SGLEAM_VERSION: &'static str = "0.1.0";

/// The version of the standard library that comes with it.
pub const GLEAM_STDLIB_VERSION: &'static str = "0.57.0";

/// The modules that every session imports.
pub const GLEAM_MODULES_NAMES: [&'static str; 28] = [
    "gleam/bit_array",
    "gleam/bool",
    "gleam/bytes_tree",
    "gleam/dict",
    "gleam/dynamic",
    "gleam/float",
    "gleam/function",
    "gleam/int",
    "gleam/io",
    "gleam/list",
    "gleam/option",
    "gleam/order",
    "gleam/pair",
    "gleam/result",
    "gleam/set",
    "gleam/string",
    "gleam/string_tree",
    "gleam/uri",
    "sgleam/check",
    "sgleam/color",
    "sgleam/fill",
    "sgleam/image",
    "sgleam/stroke",
    "sgleam/style",
    "sgleam/system",
    "sgleam/world",
    "sgleam/xplace",
    "sgleam/yplace",
];

/// The names in `GLEAM_MODULES_NAMES`, in order.
pub open spec fn modules_names() -> Seq<Seq<char>> {
    Seq::new(28, |i: int| GLEAM_MODULES_NAMES[i]@)
}

/// The names in `GLEAM_MODULES_NAMES`, each as a string of its own.
pub fn gleam_modules_names() -> (names: Vec<String>)
    ensures
        names.deep_view() == modules_names(),
{
    let mut names: Vec<String> = Vec::new();
    let mut i: usize = 0;
    while i < 28
        invariant
            i <= 28,
            names@.len() == i,
            forall|k: int| 0 <= k < i ==> names@[k]@ == GLEAM_MODULES_NAMES[k]@,
        decreases 28 - i,
    {
        names.push(String::from_str(GLEAM_MODULES_NAMES[i]));
        i += 1;
    }
    assert(names.deep_view() =~= modules_names());
    names
}

/// What `version` returns for the compiler version `gleam`.
pub open spec fn version_text(gleam: Seq<char>) -> Seq<char> {
    "sgleam "@ + SGLEAM_VERSION@ + " (using gleam "@ + gleam + " and stdlib "@
        + GLEAM_STDLIB_VERSION@ + ")"@
}

/// The line that names this program, the compiler whose version is `gleam`,
/// and the standard library.
pub fn version(gleam: &str) -> (text: String)
    ensures
        text@ == version_text(gleam@),
{
    let mut text = String::from_str("sgleam ");
    text.append(SGLEAM_VERSION);
    text.append(" (using gleam ");
    text.append(gleam);
    text.append(" and stdlib ");
    text.append(GLEAM_STDLIB_VERSION);
    text.append(")");
    text
}

} // verus!

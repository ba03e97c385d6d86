//! What is decided when a session is opened on a text of the user.

use crate::text::ends_with;
use vstd::prelude::*;

verus! {

/// What is read of a function of the user's unit.
#[derive(Debug)]
pub struct FunctionName {
    pub public: bool,
    /// The name, where the function has one.
    pub name: Option<String>,
}

/// Whether a function holds examples: it is public and its name ends with
/// `_examples`.
pub open spec fn is_examples(f: FunctionName) -> bool {
    f.public && (f.name matches Some(name) && "_examples"@.is_suffix_of(name@))
}

/// Whether one of the functions holds examples.
pub fn has_examples(functions: &Vec<FunctionName>) -> (found: bool)
    ensures
        found == exists|i: int| 0 <= i < functions@.len() && is_examples(#[trigger] functions@[i]),
{
    let mut i: usize = 0;
    while i < functions.len()
        invariant
            i <= functions.len(),
            forall|k: int| 0 <= k < i ==> !is_examples(#[trigger] functions@[k]),
        decreases functions.len() - i,
    {
        let f = &functions[i];
        if f.public {
            match &f.name {
                Some(name) => {
                    if ends_with(name.as_str(), "_examples") {
                        return true;
                    }
                },
                None => {},
            }
        }
        i += 1;
    }
    false
}

/// Whether the examples of the user's text are run when the session opens:
/// where the text is not empty and holds examples.
pub fn runs_examples(source: &str, functions: Option<&Vec<FunctionName>>) -> (runs: bool)
    ensures
        runs == (source@.len() > 0 && (functions matches Some(fs) && exists|i: int|
            0 <= i < fs@.len() && is_examples(#[trigger] fs@[i]))),
{
    if source.unicode_len() == 0 {
        return false;
    }
    match functions {
        Some(fs) => has_examples(fs),
        None => false,
    }
}

} // verus!

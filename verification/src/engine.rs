//! The entry points that the engine can be asked to run.

use vstd::prelude::*;

verus! {

/// The name of the function that wraps what a turn evaluates.
pub const REPL_MAIN: &'static str = "repl_main";

/// The entry point of a run, and how it gets its input.
#[derive(Debug, Clone, Copy, PartialEq, Eq, Structural)]
pub enum MainFunction {
    Main,
    ReplMain,
    Smain,
    SmainStdin,
    SmainStdinLines,
}

impl MainFunction {
    /// The name of the function to call.
    pub open spec fn name_text(self) -> Seq<char> {
        match self {
            MainFunction::Main => "main"@,
            MainFunction::ReplMain => REPL_MAIN@,
            _ => "smain"@,
        }
    }

    /// The name of the variant, as the engine's runtime is told it.
    pub open spec fn label_text(self) -> Seq<char> {
        match self {
            MainFunction::Main => "Main"@,
            MainFunction::ReplMain => "ReplMain"@,
            MainFunction::Smain => "Smain"@,
            MainFunction::SmainStdin => "SmainStdin"@,
            MainFunction::SmainStdinLines => "SmainStdinLines"@,
        }
    }

    /// The name of the function that is called.
    pub fn name(&self) -> (name: &'static str)
        ensures
            name@ == self.name_text(),
    {
        match self {
            MainFunction::Main => "main",
            MainFunction::ReplMain => REPL_MAIN,
            _ => "smain",
        }
    }

    /// The name of the variant.
    pub fn label(&self) -> (label: &'static str)
        ensures
            label@ == self.label_text(),
    {
        match self {
            MainFunction::Main => "Main",
            MainFunction::ReplMain => "ReplMain",
            MainFunction::Smain => "Smain",
            MainFunction::SmainStdin => "SmainStdin",
            MainFunction::SmainStdinLines => "SmainStdinLines",
        }
    }
}

} // verus!

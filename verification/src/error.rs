//! The errors of the program and what is shown of them.

use vstd::prelude::*;

verus! {

/// The errors of the compiler that this program raises itself.
#[derive(Debug)]
pub enum GleamError {
    ModuleDoesNotHaveMainFunction { module: String },
    MainFunctionDoesNotSupportTarget { module: String },
    /// An error that the compiler raised; the host keeps it.
    Other,
}

/// What can go wrong.
#[derive(Debug)]
pub enum SgleamError {
    /// The function `smain` of `module` has a signature that cannot be run.
    InvalidSMain { module: String, signature: String },
    /// `path` does not lie under `current_dir`.
    PathNotInCurrentDir { current_dir: String, path: String },
    Gleam(GleamError),
}

/// A `GleamError` as a mathematical value.
pub enum GleamErrorView {
    ModuleDoesNotHaveMainFunction { module: Seq<char> },
    MainFunctionDoesNotSupportTarget { module: Seq<char> },
    Other,
}

/// A `SgleamError` as a mathematical value.
pub enum SgleamErrorView {
    InvalidSMain { module: Seq<char>, signature: Seq<char> },
    PathNotInCurrentDir { current_dir: Seq<char>, path: Seq<char> },
    Gleam(GleamErrorView),
}

impl View for GleamError {
    type V = GleamErrorView;

    open spec fn view(&self) -> GleamErrorView {
        match self {
            GleamError::ModuleDoesNotHaveMainFunction { module } => {
                GleamErrorView::ModuleDoesNotHaveMainFunction { module: module@ }
            },
            GleamError::MainFunctionDoesNotSupportTarget { module } => {
                GleamErrorView::MainFunctionDoesNotSupportTarget { module: module@ }
            },
            GleamError::Other => GleamErrorView::Other,
        }
    }
}

impl View for SgleamError {
    type V = SgleamErrorView;

    open spec fn view(&self) -> SgleamErrorView {
        match self {
            SgleamError::InvalidSMain { module, signature } => SgleamErrorView::InvalidSMain {
                module: module@,
                signature: signature@,
            },
            SgleamError::PathNotInCurrentDir { current_dir, path } => {
                SgleamErrorView::PathNotInCurrentDir { current_dir: current_dir@, path: path@ }
            },
            SgleamError::Gleam(error) => SgleamErrorView::Gleam(error@),
        }
    }
}

/// What is shown of an error: a title, a text and a hint.
#[derive(Debug)]
pub struct Diagnostic {
    pub title: String,
    pub text: String,
    pub hint: String,
}

/// A `Diagnostic` as a mathematical value.
pub struct DiagnosticView {
    pub title: Seq<char>,
    pub text: Seq<char>,
    pub hint: Seq<char>,
}

impl View for Diagnostic {
    type V = DiagnosticView;

    open spec fn view(&self) -> DiagnosticView {
        DiagnosticView { title: self.title@, text: self.text@, hint: self.hint@ }
    }
}

/// The signatures that `smain` may have, as the hint names them.
pub const SMAIN_HINT: &'static str =
    "Use one of the valid signatures for `smain` function:\n  fn() -> a\n  fn(String) -> a\n  fn(List(String)) -> a\n";

/// What is shown of `error`; nothing for an error of the compiler, which
/// the compiler words itself.
pub open spec fn diagnostic_of(error: SgleamErrorView) -> Option<DiagnosticView> {
    match error {
        SgleamErrorView::InvalidSMain { module, signature } => Some(
            DiagnosticView {
                title: "smain function has an invalid signature"@,
                text: "`"@ + module + ".smain` has the invalid signature `"@ + signature
                    + "` and can not be run."@,
                hint: SMAIN_HINT@,
            },
        ),
        SgleamErrorView::PathNotInCurrentDir { current_dir, path } => Some(
            DiagnosticView {
                title: "path is not within the current directory"@,
                text: "`"@ + path + "` is outside of the current directory `"@ + current_dir
                    + "`"@,
                hint: "Change the current directory or specify another path."@,
            },
        ),
        SgleamErrorView::Gleam(error) => None,
    }
}

/// What is to be shown of `err`.
pub fn show_error(err: &SgleamError) -> (shown: Option<Diagnostic>)
    ensures
        shown.is_some() == diagnostic_of(err@).is_some(),
        shown matches Some(d) ==> Some(d@) == diagnostic_of(err@),
{
    match err {
        SgleamError::InvalidSMain { module, signature } => {
            let mut text = String::from_str("`");
            text.append(module.as_str());
            text.append(".smain` has the invalid signature `");
            text.append(signature.as_str());
            text.append("` and can not be run.");
            Some(
                Diagnostic {
                    title: String::from_str("smain function has an invalid signature"),
                    text,
                    hint: String::from_str(SMAIN_HINT),
                },
            )
        },
        SgleamError::PathNotInCurrentDir { current_dir, path } => {
            let mut text = String::from_str("`");
            text.append(path.as_str());
            text.append("` is outside of the current directory `");
            text.append(current_dir.as_str());
            text.append("`");
            Some(
                Diagnostic {
                    title: String::from_str("path is not within the current directory"),
                    text,
                    hint: String::from_str("Change the current directory or specify another path."),
                },
            )
        },
        SgleamError::Gleam(_) => None,
    }
}

/// When the error stream is written in colour.
#[derive(Debug, Clone, Copy, PartialEq, Eq, Structural)]
pub enum ColorChoice {
    Always,
    Auto,
    Never,
}

/// Whether a value of the variable `FORCE_COLOR` asks for colour: any value
/// but the empty one does.
pub fn colour_forced(value: Option<&str>) -> (forced: bool)
    ensures
        forced == (value matches Some(v) && v@.len() > 0),
{
    match value {
        Some(force) => force.unicode_len() > 0,
        None => false,
    }
}

/// Colour is used where it is asked for; else it is left to the terminal,
/// where the error stream is one; else there is none.
pub fn color_choice(forced: bool, terminal: bool) -> (choice: ColorChoice)
    ensures
        choice == (if forced {
            ColorChoice::Always
        } else if terminal {
            ColorChoice::Auto
        } else {
            ColorChoice::Never
        }),
{
    if forced {
        ColorChoice::Always
    } else if terminal {
        ColorChoice::Auto
    } else {
        ColorChoice::Never
    }
}

} // verus!

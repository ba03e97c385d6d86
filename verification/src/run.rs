//! How a file is run: which of its functions is the entry point, which
//! files are taken, and which of the compiled units are the user's.

use crate::engine::MainFunction;
use crate::error::{GleamError, GleamErrorView, SgleamError, SgleamErrorView};
use crate::gleam::{
    fn_lettered, fn_text, fn_type_to_string, lettered, shown, type_to_string, vars_of,
    vars_of_list, with_new, Type,
};
use crate::text::{same_text, starts_with};
use vstd::prelude::*;

verus! {

/// The name of the entry point that takes the input of the program.
pub const SGLEAM_SMAIN: &'static str = "smain";

/// What is read of a function of a compiled unit.
#[derive(Debug)]
pub struct TypedFunction {
    /// Whether the function can be compiled for the runtime.
    pub supports_javascript: bool,
    /// The types of its parameters.
    pub arguments: Vec<Type>,
    pub return_type: Type,
}

/// How the signature of `smain` is written in an error.
pub open spec fn signature_text(smain: TypedFunction) -> Seq<char> {
    fn_text(
        smain.arguments@,
        smain.return_type,
        with_new(
            Seq::empty(),
            vars_of_list(smain.arguments@, smain.arguments@.len() as int) + vars_of(
                smain.return_type,
            ),
        ),
    )
}

/// Whether `smain` takes the input in a way that the program knows: not at
/// all, as one string, or as a list of lines.
pub open spec fn smain_is_valid(smain: TypedFunction) -> bool {
    ||| smain.arguments@.len() == 0
    ||| smain.arguments@.len() == 1 && (shown(smain.arguments@[0]) == "String"@ || shown(
        smain.arguments@[0],
    ) == "List(String)"@)
}

/// Whether all that `get_smain` writes of `smain` can be written: the type
/// of a single parameter, and the whole signature where it is not valid.
pub open spec fn smain_can_be_shown(smain: TypedFunction) -> bool {
    smain.supports_javascript ==> {
        &&& smain.arguments@.len() == 1 ==> lettered(smain.arguments@[0], Seq::empty())
        &&& !smain_is_valid(smain) ==> fn_lettered(
            smain.arguments@,
            smain.return_type,
            Seq::empty(),
        )
    }
}

/// The entry point that `smain` is for the unit `module`, or why it is
/// none.
pub open spec fn smain_of(module: Seq<char>, smain: Option<TypedFunction>) -> Result<
    MainFunction,
    SgleamErrorView,
> {
    match smain {
        None => Err(
            SgleamErrorView::Gleam(GleamErrorView::ModuleDoesNotHaveMainFunction { module }),
        ),
        Some(f) => if !f.supports_javascript {
            Err(SgleamErrorView::Gleam(GleamErrorView::MainFunctionDoesNotSupportTarget { module }))
        } else if f.arguments@.len() == 0 {
            Ok(MainFunction::Smain)
        } else if f.arguments@.len() == 1 && shown(f.arguments@[0]) == "String"@ {
            Ok(MainFunction::SmainStdin)
        } else if f.arguments@.len() == 1 && shown(f.arguments@[0]) == "List(String)"@ {
            Ok(MainFunction::SmainStdinLines)
        } else {
            Err(SgleamErrorView::InvalidSMain { module, signature: signature_text(f) })
        },
    }
}

/// The view of a result of `get_smain` or `get_main`.
pub open spec fn result_view(r: Result<MainFunction, SgleamError>) -> Result<
    MainFunction,
    SgleamErrorView,
> {
    match r {
        Ok(main) => Ok(main),
        Err(error) => Err(error@),
    }
}

/// Tells how the function `smain` of the unit `module` is to be run, where
/// `smain` is that function, if the unit has one.
pub fn get_smain(module: &str, smain: Option<&TypedFunction>) -> (main: Result<
    MainFunction,
    SgleamError,
>)
    requires
        smain matches Some(f) ==> smain_can_be_shown(*f),
    ensures
        result_view(main) == smain_of(
            module@,
            match smain {
                Some(f) => Some(*f),
                None => None,
            },
        ),
{
    let smain = match smain {
        Some(f) => f,
        None => {
            return Err(
                SgleamError::Gleam(
                    GleamError::ModuleDoesNotHaveMainFunction { module: String::from_str(module) },
                ),
            );
        },
    };
    if !smain.supports_javascript {
        return Err(
            SgleamError::Gleam(
                GleamError::MainFunctionDoesNotSupportTarget { module: String::from_str(module) },
            ),
        );
    }
    if smain.arguments.len() == 0 {
        return Ok(MainFunction::Smain);
    }
    if smain.arguments.len() == 1 {
        let arg = type_to_string(&smain.arguments[0]);
        if same_text(arg.as_str(), "String") {
            return Ok(MainFunction::SmainStdin);
        }
        if same_text(arg.as_str(), "List(String)") {
            return Ok(MainFunction::SmainStdinLines);
        }
    }
    Err(
        SgleamError::InvalidSMain {
            module: String::from_str(module),
            signature: fn_type_to_string(&smain.arguments, &smain.return_type),
        },
    )
}

/// The entry point of the unit `module`: what `smain` is for it, and where
/// it has no `smain` that could be run, `main`, if the compiler found that
/// (`main` is its answer).
pub open spec fn main_of(
    module: Seq<char>,
    smain: Option<TypedFunction>,
    main: Result<(), GleamError>,
) -> Result<MainFunction, SgleamErrorView> {
    match smain_of(module, smain) {
        Ok(found) => Ok(found),
        Err(SgleamErrorView::InvalidSMain { module, signature }) => Err(
            SgleamErrorView::InvalidSMain { module, signature },
        ),
        Err(_) => match main {
            Ok(_) => Ok(MainFunction::Main),
            Err(error) => Err(SgleamErrorView::Gleam(error@)),
        },
    }
}

/// Tells which function of the unit `module` is to be run.
pub fn get_main(
    module: &str,
    smain: Option<&TypedFunction>,
    main: Result<(), GleamError>,
) -> (found: Result<MainFunction, SgleamError>)
    requires
        smain matches Some(f) ==> smain_can_be_shown(*f),
    ensures
        result_view(found) == main_of(
            module@,
            match smain {
                Some(f) => Some(*f),
                None => None,
            },
            main,
        ),
{
    match get_smain(module, smain) {
        Ok(found) => Ok(found),
        Err(SgleamError::InvalidSMain { module, signature }) => Err(
            SgleamError::InvalidSMain { module, signature },
        ),
        Err(_) => match main {
            Ok(_) => Ok(MainFunction::Main),
            Err(error) => Err(SgleamError::Gleam(error)),
        },
    }
}

/// Whether `smain` can be handed to `get_smain`.
pub fn can_show_smain(smain: &TypedFunction) -> (ok: bool)
    ensures
        ok == smain_can_be_shown(*smain),
{
    if !smain.supports_javascript {
        return true;
    }
    if smain.arguments.len() == 0 {
        return true;
    }
    if smain.arguments.len() == 1 {
        if !crate::gleam::can_show(&smain.arguments[0]) {
            return false;
        }
        let arg = type_to_string(&smain.arguments[0]);
        if same_text(arg.as_str(), "String") || same_text(arg.as_str(), "List(String)") {
            return true;
        }
    }
    let none: Vec<u64> = Vec::new();
    crate::gleam::can_show_fn(&smain.arguments, &smain.return_type, &none)
}

/// Whether a unit belongs to the user: the units of the standard library
/// and of this program do not.
pub open spec fn is_user_unit(name: Seq<char>) -> bool {
    !"gleam/"@.is_prefix_of(name) && !"sgleam/"@.is_prefix_of(name)
}

/// Tells whether the unit `name` belongs to the user.
pub fn is_user_module(name: &str) -> (user: bool)
    ensures
        user == is_user_unit(name@),
{
    !starts_with(name, "gleam/") && !starts_with(name, "sgleam/")
}

/// The places of the user's units among the first `upto` of `names`, in
/// order.
pub open spec fn user_units(names: Seq<Seq<char>>, upto: int) -> Seq<usize>
    decreases upto,
{
    if upto <= 0 || upto > names.len() {
        Seq::empty()
    } else if is_user_unit(names[upto - 1]) {
        user_units(names, upto - 1).push((upto - 1) as usize)
    } else {
        user_units(names, upto - 1)
    }
}

/// The places of the units among `names` that belong to the user.
pub fn user_modules(names: &Vec<String>) -> (kept: Vec<usize>)
    ensures
        kept@ == user_units(names.deep_view(), names@.len() as int),
{
    let mut kept: Vec<usize> = Vec::new();
    let mut i: usize = 0;
    while i < names.len()
        invariant
            i <= names.len(),
            kept@ == user_units(names.deep_view(), i as int),
        decreases names.len() - i,
    {
        assert(names.deep_view()[i as int] == names@[i as int]@);
        if is_user_module(names[i].as_str()) {
            kept.push(i);
        }
        i += 1;
    }
    kept
}

/// What the user asked for on the command line.
#[derive(Debug, Clone, Copy, PartialEq, Eq, Structural)]
pub struct Request {
    pub interative: bool,
    pub test: bool,
    pub format: bool,
    pub check: bool,
    pub version: bool,
}

/// What the program does.
#[derive(Debug, Clone, Copy, PartialEq, Eq, Structural)]
pub enum Command {
    /// It prints its version.
    Version,
    /// It formats the files, or its input where there are none.
    Format,
    /// It opens a session, on the first of the files and what they import
    /// where there are files.
    Interactive,
    /// It ends with the message that at most one file can be run.
    TooManyFiles,
    /// It checks the files and what they import.
    Check,
    /// It runs the tests of the files.
    Test,
    /// It runs the file.
    Run,
}

/// What the program does where the user asked for `request` and named
/// `files` files. The version goes before all else and formatting before
/// the rest; without files a session is opened; only checking and testing
/// take more than one file.
pub fn command(request: Request, files: usize) -> (command: Command)
    ensures
        command == (if request.version {
            Command::Version
        } else if request.format {
            Command::Format
        } else if files == 0 {
            Command::Interactive
        } else if !request.check && !request.test && files != 1 {
            Command::TooManyFiles
        } else if request.check {
            Command::Check
        } else if request.test {
            Command::Test
        } else if request.interative {
            Command::Interactive
        } else {
            Command::Run
        }),
{
    if request.version {
        Command::Version
    } else if request.format {
        Command::Format
    } else if files == 0 {
        Command::Interactive
    } else if !request.check && !request.test && files != 1 {
        Command::TooManyFiles
    } else if request.check {
        Command::Check
    } else if request.test {
        Command::Test
    } else if request.interative {
        Command::Interactive
    } else {
        Command::Run
    }
}

/// What is made of a path that is named as a source file.
#[derive(Debug, Clone, Copy, PartialEq, Eq, Structural)]
pub enum PathVerdict {
    /// It is taken.
    Valid,
    /// It is ignored: it is no file with the extension `gleam`.
    NotGleamFile,
    /// It is ignored: the file is called `gleam`.
    ReservedGleam,
    /// It is ignored: the file is called `sgleam`.
    ReservedSgleam,
}

/// What is made of a path whose file name has the stem `stem` and the
/// extension `extension`.
pub open spec fn verdict_of(stem: Option<Seq<char>>, extension: Option<Seq<char>>) -> PathVerdict {
    let stem = match stem {
        Some(s) => s,
        None => Seq::empty(),
    };
    if extension != Some("gleam"@) || stem.len() == 0 {
        PathVerdict::NotGleamFile
    } else if stem == "gleam"@ {
        PathVerdict::ReservedGleam
    } else if stem == "sgleam"@ {
        PathVerdict::ReservedSgleam
    } else {
        PathVerdict::Valid
    }
}

/// Decides on a path by the stem and the extension of its file name.
pub fn path_verdict(stem: Option<&str>, extension: Option<&str>) -> (verdict: PathVerdict)
    ensures
        verdict == verdict_of(
            match stem {
                Some(s) => Some(s@),
                None => None,
            },
            match extension {
                Some(e) => Some(e@),
                None => None,
            },
        ),
{
    let steam = match stem {
        Some(s) => s,
        None => "",
    };
    proof {
        reveal_strlit("");
    }
    let gleam = match extension {
        Some(e) => same_text(e, "gleam"),
        None => false,
    };
    if !gleam || steam.unicode_len() == 0 {
        PathVerdict::NotGleamFile
    } else if same_text(steam, "gleam") {
        PathVerdict::ReservedGleam
    } else if same_text(steam, "sgleam") {
        PathVerdict::ReservedSgleam
    } else {
        PathVerdict::Valid
    }
}

/// Calls `camino::Utf8Path::file_stem` on the path `path`: the file name of
/// the path without its extension, where the path has a file name. Nothing
/// is claimed of the result: which part of a path is its file name depends
/// on the platform.
#[verifier::external_body]
fn file_stem(path: &str) -> (stem: Option<String>) {
    camino::Utf8Path::new(path).file_stem().map(String::from)
}

/// Calls `camino::Utf8Path::extension` on the path `path`: what follows the
/// last dot of the file name, where the path has a file name with a dot
/// inside. Nothing is claimed of the result: which part of a path is its
/// file name depends on the platform.
#[verifier::external_body]
fn extension(path: &str) -> (extension: Option<String>) {
    camino::Utf8Path::new(path).extension().map(String::from)
}

/// Decides whether `path` is taken as a source file. The path library
/// tells the stem and the extension of its file name; the decision is what
/// `path_verdict` makes of them.
pub fn validade_path(path: &str) -> PathVerdict {
    let stem = file_stem(path);
    let ext = extension(path);
    path_verdict(
        match &stem {
            Some(s) => Some(s.as_str()),
            None => None,
        },
        match &ext {
            Some(e) => Some(e.as_str()),
            None => None,
        },
    )
}

/// Calls `camino::Utf8Path::with_extension` on the path `path`, with the
/// empty extension: the path without the extension of its file name.
/// Nothing is claimed of the result: which part of a path is its file name
/// depends on the platform.
#[verifier::external_body]
fn without_extension(path: &str) -> (bare: String) {
    camino::Utf8Path::new(path).with_extension("").into_string()
}

/// The name of the unit that the file `path` holds: the path without its
/// extension, as the path library cuts it off, with `/` for each `\`.
pub fn module_of_path(path: &str) -> (name: String)
    ensures
        forall|i: int| 0 <= i < name@.len() ==> name@[i] != '\\',
{
    let bare = without_extension(path);
    crate::quickjs::replace(bare.as_str(), '\\', '/')
}

/// What the user is told of a path that is ignored.
pub open spec fn ignoring_text(path: Seq<char>, verdict: PathVerdict) -> Option<Seq<char>> {
    match verdict {
        PathVerdict::Valid => None,
        PathVerdict::NotGleamFile => Some(
            "Ignoring `"@ + path + "`: is not a valid gleam file."@,
        ),
        PathVerdict::ReservedGleam => Some(
            "Ignoring `"@ + path + "`: `gleam` is a reserved module name."@,
        ),
        PathVerdict::ReservedSgleam => Some(
            "Ignoring `"@ + path + "`: `sgleam` is a reserved module name."@,
        ),
    }
}

/// The line that tells the user why `path` is ignored, where it is.
pub fn ignoring_message(path: &str, verdict: PathVerdict) -> (message: Option<String>)
    ensures
        message.deep_view() == ignoring_text(path@, verdict),
{
    let mut text = String::from_str("Ignoring `");
    text.append(path);
    match verdict {
        PathVerdict::Valid => None,
        PathVerdict::NotGleamFile => {
            text.append("`: is not a valid gleam file.");
            Some(text)
        },
        PathVerdict::ReservedGleam => {
            text.append("`: `gleam` is a reserved module name.");
            Some(text)
        },
        PathVerdict::ReservedSgleam => {
            text.append("`: `sgleam` is a reserved module name.");
            Some(text)
        },
    }
}

} // verus!

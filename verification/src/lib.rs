//! Structured access to line-oriented text adventure interpreters.
//!
//! The crate holds the decisions of a driver for the `dfrotz` interpreter:
//! how a line of input resolves to a command, which exchange each command
//! needs, how captured output is read, and what the session does next. The
//! process itself, its pipes and the clock belong to the caller.

use vstd::prelude::*;

pub mod command_result;
pub mod commands;
pub mod dfrotz;
pub mod formatters;
pub mod gamefile;
pub mod pattern;
pub mod protocol;
pub mod savefile;
pub mod session;
pub mod text;

verus! {

/// Slot used when a save or restore names none.
pub const AUTO_SAVE_SLOT: &'static str = "autosave";

/// Directory searched for game files.
pub const GAME_DIR: &'static str = "games";

/// The interpreter's prompt for a save file name.
pub const FILENAME_PROMPT_REGEX: &'static str = r"Please enter a filename \[.*\]: ";

/// A line that holds only the prompt glyph: the interpreter is idle.
pub const PROMPT_REGEX: &'static str = r"(?m)^>\s*$";

/// A score, optionally followed by the attainable total.
pub const SCORE_REGEX: &'static str =
    r"([0-9]+) ?(?:\(total [points ]*[out ]*of [a mxiuof]*[a posible]*([0-9]+)\))?";

/// `std::io::Error`: the library passes such errors on and reads nothing in them.
#[verifier::external_type_specification]
#[verifier::external_body]
pub struct ExIoError(std::io::Error);

/// What can go wrong outside an exchange with the interpreter.
#[derive(Debug)]
pub enum Error {
    /// A pipe or process operation failed.
    Io(std::io::Error),
    /// The interpreter process misbehaved.
    Process(String),
    /// No game file matches the given name.
    GameNotFound(String),
    /// The interpreter executable cannot be located.
    DfrotzNotFound(String),
    /// Several game files match the given name; they are listed.
    MultipleGamesFound(String, Vec<String>),
    /// An operation needs a live interpreter and there is none.
    GameNotRunning,
    /// A save did not go through.
    SaveFailed,
    /// A restore did not go through.
    RestoreFailed,
}

/// The mathematical value of an [`Error`].
pub enum ErrorView {
    Io(std::io::Error),
    Process(Seq<char>),
    GameNotFound(Seq<char>),
    DfrotzNotFound(Seq<char>),
    MultipleGamesFound(Seq<char>, Seq<Seq<char>>),
    GameNotRunning,
    SaveFailed,
    RestoreFailed,
}

impl View for Error {
    type V = ErrorView;

    open spec fn view(&self) -> ErrorView {
        match self {
            Error::Io(e) => ErrorView::Io(*e),
            Error::Process(m) => ErrorView::Process(m@),
            Error::GameNotFound(n) => ErrorView::GameNotFound(n@),
            Error::DfrotzNotFound(p) => ErrorView::DfrotzNotFound(p@),
            Error::MultipleGamesFound(n, names) => ErrorView::MultipleGamesFound(
                n@,
                names.deep_view(),
            ),
            Error::GameNotRunning => ErrorView::GameNotRunning,
            Error::SaveFailed => ErrorView::SaveFailed,
            Error::RestoreFailed => ErrorView::RestoreFailed,
        }
    }
}

/// The default games directory.
pub fn game_dir() -> (r: String)
    ensures
        r@ == GAME_DIR@,
{
    GAME_DIR.to_owned()
}

} // verus!

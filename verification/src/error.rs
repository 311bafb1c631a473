//! What can go wrong.

use vstd::prelude::*;
use vstd::string::*;

verus! {

/// Why no password was generated.
#[derive(Clone, Copy, Debug, PartialEq, Eq, Structural)]
pub enum GenError {
    /// The length field holds no number, or one outside the accepted range.
    InvalidLength,
    /// No character class is asked for, so there is nothing to draw from.
    EmptyAlphabet,
    /// No password of the length asked for can hold a character of every
    /// class that is asked for, or none was found in the attempts allowed.
    UnsatisfiableConstraint,
}

/// How handing the password to the clipboard failed.
#[derive(Clone, Copy, Debug, PartialEq, Eq, Structural)]
pub enum ClipboardFailure {
    /// The process that feeds the clipboard tool could not be started.
    PipeFailed,
    /// The clipboard tool is not installed.
    ToolMissing,
    /// The clipboard tool was started and failed.
    ToolFailed,
    /// The clipboard of the platform refused the text.
    CopyFailed,
}

impl ClipboardFailure {
    /// What the user is told of the failure, in English and in Russian.
    pub open spec fn spec_messages(self) -> (Seq<char>, Seq<char>) {
        match self {
            ClipboardFailure::PipeFailed => (
                "echo error by copy to clipbord!"@,
                "При вставке в буфер обмена произошла ошибка echo!"@,
            ),
            ClipboardFailure::ToolMissing => (
                "'xclip' packet needed for copy to clipbord!"@,
                "Для вставки в буфер обмена установите пакет 'xclip'!"@,
            ),
            ClipboardFailure::ToolFailed => ("Failed to run xclip!"@, "Failed to run xclip!"@),
            ClipboardFailure::CopyFailed => (
                "Copy to clipboard error!"@,
                "Ошибка копирования в буфер обмена!"@,
            ),
        }
    }

    /// What the user is told of the failure, in English and in Russian.
    pub fn messages(self) -> (r: (String, String))
        ensures
            (r.0@, r.1@) == self.spec_messages(),
    {
        match self {
            ClipboardFailure::PipeFailed => (
                String::from_str("echo error by copy to clipbord!"),
                String::from_str("При вставке в буфер обмена произошла ошибка echo!"),
            ),
            ClipboardFailure::ToolMissing => (
                String::from_str("'xclip' packet needed for copy to clipbord!"),
                String::from_str("Для вставки в буфер обмена установите пакет 'xclip'!"),
            ),
            ClipboardFailure::ToolFailed => (
                String::from_str("Failed to run xclip!"),
                String::from_str("Failed to run xclip!"),
            ),
            ClipboardFailure::CopyFailed => (
                String::from_str("Copy to clipboard error!"),
                String::from_str("Ошибка копирования в буфер обмена!"),
            ),
        }
    }
}

} // verus!

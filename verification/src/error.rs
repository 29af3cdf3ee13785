//! What can go wrong while the game starts.

use vstd::prelude::*;

verus! {

/// A failure of startup. None of them can be mended by the library: it
/// reports the failure, and the caller decides whether to try another
/// file or to give up.
#[derive(Debug, Clone, Copy, PartialEq, Eq, Structural)]
pub enum StartupError {
    /// The data archive is missing or may not be read.
    FileUnreadable,
    /// The header or the directory of the data archive is cut short or
    /// damaged.
    DirectoryReadFailure,
    /// The data archive is no main archive: it lacks the tag, and nothing
    /// else makes up for it.
    IwadTagMissing,
    /// The compatibility level asked for is neither a known number nor a
    /// known name.
    UnknownCompatibilityLevel,
    /// The skill asked for does not exist.
    InvalidSkillLevel,
    /// The number of helper dogs asked for is no number, or out of bounds.
    InvalidDogCount,
    /// An argument that must be a number is none.
    InvalidNumber,
    /// Playing a demo and recording one were asked for at once.
    ParameterConflict,
    /// A quoted text in a response file is never closed.
    RunawayQuote,
    /// An argument in a response file is no valid text.
    InvalidResponseText,
}

impl StartupError {
    /// A short description of the failure, fit for a diagnostic.
    pub open spec fn description(self) -> Seq<char> {
        match self {
            StartupError::FileUnreadable => "the data archive is not readable"@,
            StartupError::DirectoryReadFailure =>
                "failed to read the directory of the data archive"@,
            StartupError::IwadTagMissing => "the data archive carries no IWAD tag"@,
            StartupError::UnknownCompatibilityLevel => "unknown compatibility level"@,
            StartupError::InvalidSkillLevel => "invalid skill level"@,
            StartupError::InvalidDogCount => "invalid number of dogs"@,
            StartupError::InvalidNumber => "an argument is not a number"@,
            StartupError::ParameterConflict =>
                "cannot play back and record a demo at the same time"@,
            StartupError::RunawayQuote => "runaway quoted string in response file"@,
            StartupError::InvalidResponseText => "response file holds what is no text"@,
        }
    }

    /// A short description of the failure, fit for a diagnostic.
    pub fn message(self) -> (s: &'static str)
        ensures
            s@ == self.description(),
    {
        match self {
            StartupError::FileUnreadable => "the data archive is not readable",
            StartupError::DirectoryReadFailure =>
                "failed to read the directory of the data archive",
            StartupError::IwadTagMissing => "the data archive carries no IWAD tag",
            StartupError::UnknownCompatibilityLevel => "unknown compatibility level",
            StartupError::InvalidSkillLevel => "invalid skill level",
            StartupError::InvalidDogCount => "invalid number of dogs",
            StartupError::InvalidNumber => "an argument is not a number",
            StartupError::ParameterConflict =>
                "cannot play back and record a demo at the same time",
            StartupError::RunawayQuote => "runaway quoted string in response file",
            StartupError::InvalidResponseText => "response file holds what is no text",
        }
    }
}

} // verus!

use vstd::prelude::*;

verus! {

/// Spec-level image of `Error`, with each path or message as a character
/// sequence, so that contracts can speak of error values exactly.
pub ghost enum ErrorV {
    NotGitRepository(Seq<char>),
    ConfigFileMissing,
    UnsupportedVersion(Option<u64>),
    InvalidConfig(Seq<char>),
    Io(Seq<char>),
    NotADirectory(Seq<char>),
    NotEmpty(Seq<char>),
}

/// Everything that can go wrong while validating or creating a repository.
///
/// Each variant carries the offending path, message or version value, so a
/// caller can report what failed and where.
#[derive(Debug, PartialEq, Eq)]
pub enum Error {
    /// Validation ran against a path whose worktree is not an existing directory.
    NotGitRepository(String),
    /// The metadata directory has no configuration file.
    ConfigFileMissing,
    /// The configuration declares (or omits) a structural version other than `0`.
    UnsupportedVersion(Option<u64>),
    /// The configuration file exists but is malformed, or a field has the wrong type.
    InvalidConfig(String),
    /// An underlying filesystem operation failed; the message is the system's.
    Io(String),
    /// The creation target exists but is not a directory.
    NotADirectory(String),
    /// The creation target's metadata directory already contains entries.
    NotEmpty(String),
}

impl View for Error {
    type V = ErrorV;

    open spec fn view(&self) -> ErrorV {
        match self {
            Error::NotGitRepository(p) => ErrorV::NotGitRepository(p@),
            Error::ConfigFileMissing => ErrorV::ConfigFileMissing,
            Error::UnsupportedVersion(v) => ErrorV::UnsupportedVersion(*v),
            Error::InvalidConfig(m) => ErrorV::InvalidConfig(m@),
            Error::Io(m) => ErrorV::Io(m@),
            Error::NotADirectory(p) => ErrorV::NotADirectory(p@),
            Error::NotEmpty(p) => ErrorV::NotEmpty(p@),
        }
    }
}

} // verus!

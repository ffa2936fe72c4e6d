//! The errors the runner can stop with.
//!
//! Notification failures are deliberately absent: a failed or rejected ping
//! is only ever a warning (see `notify`), never an error.

use vstd::prelude::*;

verus! {

/// A fatal condition: configuration that cannot be completed, a child
/// process that cannot be run, or an end-ping body that cannot be built.
#[derive(Clone, Copy, Debug, PartialEq, Eq, Structural)]
pub enum Error {
    /// No base URL was supplied on the command line, in the config file,
    /// or in the environment.
    MissingUrl,
    /// A base URL was supplied but is not a valid absolute URL.
    InvalidUrl,
    /// The config file exists but could not be read or parsed.
    Settings,
    /// The child process could not be spawned at all.
    Spawn,
    /// The child terminated without an exit status code (for example,
    /// killed by a signal), so no code can be reported or returned.
    EmptyExitCode,
    /// The child's exit status code does not fit in the 0..=255 range
    /// that this process can return.
    ExitCodeOutOfRange,
    /// The child's captured stderr is not valid UTF-8, so the end-ping
    /// body cannot be built from it.
    InvalidUtf8,
}

impl Error {
    /// A short description, in place of a `Display` impl.
    pub fn message(&self) -> (r: &'static str)
        ensures
            r@ == self.spec_message(),
    {
        match self {
            Error::MissingUrl => "base URL not found",
            Error::InvalidUrl => "invalid base URL",
            Error::Settings => "settings error",
            Error::Spawn => "command could not be spawned",
            Error::EmptyExitCode => "command exited with empty exit status code",
            Error::ExitCodeOutOfRange => "command exit status code is out of range",
            Error::InvalidUtf8 => "command stderr is not valid UTF-8",
        }
    }

    pub open spec fn spec_message(&self) -> Seq<char> {
        match self {
            Error::MissingUrl => "base URL not found"@,
            Error::InvalidUrl => "invalid base URL"@,
            Error::Settings => "settings error"@,
            Error::Spawn => "command could not be spawned"@,
            Error::EmptyExitCode => "command exited with empty exit status code"@,
            Error::ExitCodeOutOfRange => "command exit status code is out of range"@,
            Error::InvalidUtf8 => "command stderr is not valid UTF-8"@,
        }
    }
}

} // verus!

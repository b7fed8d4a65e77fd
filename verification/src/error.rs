//! The library's error vocabulary for command output handling and
//! parsing.  The surrounding process maps its own failures (missing
//! binaries, exit codes, malformed bytes) into these variants.

use vstd::prelude::*;

verus! {

/// Why a command's output could not be produced or interpreted.
#[derive(Debug, Clone, PartialEq, Eq)]
pub enum Error {
    /// The external utility was not found.
    CommandNotFound,
    /// The external utility exited with a failure status; carries the
    /// code (where one exists) and the captured error text.
    CommandFailed(i32, String),
    /// A value was expected at a position where none was present.
    NoValue,
    /// The interface enumeration call failed; carries the call name and
    /// its error code.
    GetIfAddrsError(String, i32),
    /// Bytes that should have been text were not valid UTF-8.
    ParseUtf8Error,
}

impl Error {
    /// A short description, usable where the process logs failures.
    pub fn message(&self) -> (r: &'static str)
        ensures
            r@ == self.spec_message(),
    {
        match self {
            Error::CommandNotFound => "Couldn't find command",
            Error::CommandFailed(_, _) => "Command failed",
            Error::NoValue => "Value expected but is not present",
            Error::GetIfAddrsError(_, _) => "Failed to enumerate interfaces",
            Error::ParseUtf8Error => "Failed to parse bytes into UTF-8 characters",
        }
    }

    pub open spec fn spec_message(&self) -> Seq<char> {
        match self {
            Error::CommandNotFound => "Couldn't find command"@,
            Error::CommandFailed(_, _) => "Command failed"@,
            Error::NoValue => "Value expected but is not present"@,
            Error::GetIfAddrsError(_, _) => "Failed to enumerate interfaces"@,
            Error::ParseUtf8Error => "Failed to parse bytes into UTF-8 characters"@,
        }
    }
}

} // verus!

//! The error taxonomy of the store.
//!
//! Three terminal failure classes cross the boundary to the caller: an I/O
//! failure, a path-resolution failure, and a serialization failure.  Each is
//! carried as data and rendered as a user-facing message string; nothing is
//! retried or partially recovered.

use vstd::prelude::*;

verus! {

/// A terminal failure of one store operation.
#[derive(Clone, Debug, PartialEq, Eq)]
pub enum Error {
    /// A filesystem operation failed; the payload is the OS-level message.
    Io(String),
    /// The host failed to supply a required platform directory; the payload
    /// names the directory that could not be resolved.
    ResolvePath(String),
    /// A settings file held malformed or schema-mismatched JSON; the payload
    /// is the decoder's message.
    Serde(String),
}

impl Error {
    /// The user-facing message of this error.
    pub open spec fn spec_message(&self) -> Seq<char> {
        match self {
            Error::Io(m) => m@,
            Error::ResolvePath(what) => "Failed to resolve "@ + what@,
            Error::Serde(m) => m@,
        }
    }

    /// Renders the error as its user-facing message string.
    pub fn message(&self) -> (m: String)
        ensures
            m@ == self.spec_message(),
    {
        match self {
            Error::Io(m) => m.clone(),
            Error::ResolvePath(what) => String::from_str("Failed to resolve ").concat(
                what.as_str(),
            ),
            Error::Serde(m) => m.clone(),
        }
    }
}

} // verus!

//! The library's error type.
use vstd::prelude::*;

use crate::text::concat;

verus! {

/// Errors of file-manager operations. `Io` carries the text of the
/// underlying I/O error.
#[derive(Debug, Clone, PartialEq, Eq)]
pub enum NcError {
    Io(String),
    Config(String),
    FileOperation(String),
}

impl NcError {
    /// The message shown for this error.
    pub open spec fn spec_message(&self) -> Seq<char> {
        match self {
            NcError::Io(m) => "IO error: "@ + m@,
            NcError::Config(m) => "Configuration error: "@ + m@,
            NcError::FileOperation(m) => "File operation failed: "@ + m@,
        }
    }

    /// The message shown for this error.
    pub fn message(&self) -> (r: String)
        ensures
            r@ == self.spec_message(),
    {
        match self {
            NcError::Io(m) => concat("IO error: ", m.as_str()),
            NcError::Config(m) => concat("Configuration error: ", m.as_str()),
            NcError::FileOperation(m) => concat("File operation failed: ", m.as_str()),
        }
    }
}

} // verus!

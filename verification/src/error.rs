use vstd::prelude::*;
use vstd::string::*;

verus! {

/// Everything that can go wrong in the editor.
#[derive(Debug, Clone, Copy, PartialEq, Eq, Structural)]
pub enum EditorError {
    /// A row index outside the buffer was addressed.
    InvalidRow,
    /// A save was attempted on a buffer that has no file path.
    NoPath,
    /// Reading or writing the file on disk failed.
    IOError,
    /// The terminal's dimensions could not be obtained.
    TerminalUnavailable,
}

impl EditorError {
    /// Whether the editing session can go on after this error.
    pub open spec fn recoverable(&self) -> bool {
        *self == EditorError::NoPath || *self == EditorError::IOError
    }

    /// Whether the editing session can go on after this error.
    pub fn is_recoverable(&self) -> (r: bool)
        ensures
            r == self.recoverable(),
    {
        match self {
            EditorError::NoPath => true,
            EditorError::IOError => true,
            EditorError::InvalidRow => false,
            EditorError::TerminalUnavailable => false,
        }
    }

    /// A short human-readable description.
    pub fn message(&self) -> (s: String)
        ensures
            *self == EditorError::InvalidRow ==> s@ == "invalid row"@,
            *self == EditorError::NoPath ==> s@ == "no path"@,
            *self == EditorError::IOError ==> s@ == "i/o error"@,
            *self == EditorError::TerminalUnavailable ==> s@ == "terminal unavailable"@,
    {
        match self {
            EditorError::InvalidRow => String::from_str("invalid row"),
            EditorError::NoPath => String::from_str("no path"),
            EditorError::IOError => String::from_str("i/o error"),
            EditorError::TerminalUnavailable => String::from_str("terminal unavailable"),
        }
    }
}

} // verus!

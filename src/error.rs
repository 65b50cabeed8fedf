use vstd::prelude::*;

verus! {

/// Why a run stopped.
#[derive(Debug, Clone)]
pub enum Error {
    /// A file that had to be there (the reference file) is absent.
    FileNotFound(String),
    /// The file name holds a character the platform forbids.
    IllegalCharacter(char),
    /// The file name is a reserved device name (Windows family only).
    IllegalName(String),
    /// The date text could not be parsed; holds the parser's diagnostic.
    DateParseError(String),
    /// Any other failure of the file system.
    IoError(String),
}

/// How a file-system operation failed, as the library sees it.
#[derive(Debug, Clone)]
pub enum IoFailure {
    /// The path does not exist; holds the system's message.
    NotFound(String),
    /// Any other failure; holds the system's message.
    Other(String),
}

impl IoFailure {
    pub open spec fn message(self) -> Seq<char> {
        match self {
            IoFailure::NotFound(m) => m@,
            IoFailure::Other(m) => m@,
        }
    }

    /// The `IoError` that reports this failure.
    pub fn into_error(self) -> (e: Error)
        ensures
            is_io_error(e, self.message()),
    {
        match self {
            IoFailure::NotFound(m) => Error::IoError(m),
            IoFailure::Other(m) => Error::IoError(m),
        }
    }
}

/// `e` is an `IoError` that carries message `m`.
pub open spec fn is_io_error(e: Error, m: Seq<char>) -> bool {
    e matches Error::IoError(x) && x@ == m
}

} // verus!

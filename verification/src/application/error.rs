//! What can stop the program.

use vstd::prelude::*;

use crate::processing::Error as ProcessingError;

verus! {

/// Why the program stopped, or what went wrong while it was set up.
#[derive(Debug)]
pub enum Error {
    /// An input or output failed; the text is its message.
    Io(String),
    /// The logger could not be installed; the text is its message.
    SetLogger(String),
    /// Processing a path failed.
    Processing(ProcessingError),
    /// Anything else, told in words.
    Custom(String),
}

impl Error {
    /// What the error says to the user.
    pub open spec fn spec_message(&self) -> Seq<char> {
        match self {
            Error::Io(m) => m@,
            Error::SetLogger(m) => m@,
            Error::Processing(e) => e.spec_message(),
            Error::Custom(m) => m@,
        }
    }

    /// What the error says to the user.
    pub fn message(&self) -> (res: String)
        ensures
            res@ == self.spec_message(),
    {
        match self {
            Error::Io(m) => m.clone(),
            Error::SetLogger(m) => m.clone(),
            Error::Processing(e) => e.message(),
            Error::Custom(m) => m.clone(),
        }
    }
}

impl From<ProcessingError> for Error {
    fn from(error: ProcessingError) -> (res: Self) {
        Error::Processing(error)
    }
}

impl vstd::std_specs::convert::FromSpecImpl<ProcessingError> for Error {
    open spec fn obeys_from_spec() -> bool {
        true
    }

    open spec fn from_spec(error: ProcessingError) -> Self {
        Error::Processing(error)
    }
}

impl From<String> for Error {
    fn from(error: String) -> (res: Self) {
        Error::Custom(error)
    }
}

impl vstd::std_specs::convert::FromSpecImpl<String> for Error {
    open spec fn obeys_from_spec() -> bool {
        true
    }

    open spec fn from_spec(error: String) -> Self {
        Error::Custom(error)
    }
}

} // verus!

//! What can go wrong while processing a path.

use vstd::prelude::*;

use crate::text::{concat2, owned};

verus! {

/// How `{:?}` prints a string: quoted, with special characters escaped.
pub uninterp spec fn debug_text(s: Seq<char>) -> Seq<char>;

/// `format!("{:?}", s)`.
#[verifier::external_body]
pub(crate) fn debug_quote(s: &str) -> (res: String)
    ensures
        res@ == debug_text(s@),
{
    format!("{:?}", s)
}

/// Why a path was not renamed.
#[derive(Debug)]
pub enum Error {
    /// The file system refused an operation; the text is its message.
    Io(String),
    /// The path does not exist.
    NotFound(String),
    /// No matcher gave a rename for the path.
    NoMatch(String),
    /// The user chose to skip the path.
    Skip(String),
    /// The user chose to stop processing.
    Abort,
    /// The path has no part of the named kind (`parent` or `file_stem`).
    PathUnwrap(String, String),
}

impl Clone for Error {
    fn clone(&self) -> (res: Self)
        ensures
            res == *self,
    {
        match self {
            Error::Io(s) => Error::Io(s.clone()),
            Error::NotFound(s) => Error::NotFound(s.clone()),
            Error::NoMatch(s) => Error::NoMatch(s.clone()),
            Error::Skip(s) => Error::Skip(s.clone()),
            Error::Abort => Error::Abort,
            Error::PathUnwrap(p, w) => Error::PathUnwrap(p.clone(), w.clone()),
        }
    }
}

impl Error {
    /// The error for a path that does not exist.
    pub fn not_found(path: &str) -> (res: Error)
        ensures
            res matches Error::NotFound(p) && p@ == path@,
    {
        Error::NotFound(owned(path))
    }

    /// The error for a path that no matcher renames.
    pub fn no_match(path: &str) -> (res: Error)
        ensures
            res matches Error::NoMatch(p) && p@ == path@,
    {
        Error::NoMatch(owned(path))
    }

    /// What the error says to the user.
    pub open spec fn spec_message(&self) -> Seq<char> {
        match self {
            Error::Io(m) => m@,
            Error::NotFound(p) => "Path not found: "@ + debug_text(p@),
            Error::NoMatch(p) => "No match for path: "@ + debug_text(p@),
            Error::Skip(p) => "Skipped path: "@ + debug_text(p@),
            Error::Abort => "Processing aborted"@,
            Error::PathUnwrap(p, what) => "Unable to find the "@ + what@ + " of "@ + debug_text(p@),
        }
    }

    /// What the error says to the user.
    pub fn message(&self) -> (res: String)
        ensures
            res@ == self.spec_message(),
    {
        match self {
            Error::Io(m) => m.clone(),
            Error::NotFound(p) => concat2("Path not found: ", debug_quote(p.as_str()).as_str()),
            Error::NoMatch(p) => concat2("No match for path: ", debug_quote(p.as_str()).as_str()),
            Error::Skip(p) => concat2("Skipped path: ", debug_quote(p.as_str()).as_str()),
            Error::Abort => owned("Processing aborted"),
            Error::PathUnwrap(p, what) => {
                let mut res = concat2("Unable to find the ", what.as_str());
                res.append(" of ");
                res.append(debug_quote(p.as_str()).as_str());
                res
            },
        }
    }
}

} // verus!

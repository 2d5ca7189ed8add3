//! The user's side of a run: the actions a user can choose, the state an
//! interactive front end keeps, the decisions of the terminal dialog and of
//! the window, and the front end that never asks.

pub mod actions;
pub mod dialog;
pub mod laws;
pub mod state;
pub mod window;

pub use NonInteractive as Gui;

use vstd::prelude::*;

use crate::application::cli::Interactive;
use crate::processing::{Communication, Confirmation, Error, Reporter};
use crate::replacement::Replacement;

verus! {

/// The front ends a run can have.
#[derive(Debug, Clone, Copy, PartialEq, Eq, Structural)]
pub enum InterfaceKind {
    /// Asks in the terminal.
    Text,
    /// Never asks.
    NonInteractive,
}

/// The front end for the choice `interactive`: the terminal when it was
/// asked for and is available, else the one that never asks. This build
/// has no window front end, so asking for it gives the one that never asks.
pub fn from(interactive: Interactive, text_available: bool) -> (res: InterfaceKind)
    ensures
        res == (if interactive is Text && text_available {
            InterfaceKind::Text
        } else {
            InterfaceKind::NonInteractive
        }),
{
    match interactive {
        Interactive::Text if text_available => InterfaceKind::Text,
        _ => InterfaceKind::NonInteractive,
    }
}

/// The front end that never asks: every rename found is accepted, and a
/// path without one stays as it is.
#[derive(Debug)]
pub struct NonInteractive {}

impl NonInteractive {
    /// Whether this front end can be used: always.
    pub fn available() -> (res: bool)
        ensures
            res,
    {
        true
    }

    /// The front end.
    pub fn new() -> (res: NonInteractive) {
        NonInteractive {}
    }
}

impl Reporter for NonInteractive {
    fn setup(&self, count: usize) {
    }

    fn processing(&self, path: &str) {
    }

    fn processing_ok(&self, replacement: &Replacement) {
    }

    fn processing_err(&self, path: &str, error: &Error) {
    }
}

impl Communication for NonInteractive {
    fn confirm(&self, replacement: &Replacement) -> (res: Confirmation)
        ensures
            res is Accept,
    {
        Confirmation::Accept
    }

    fn rescue(&self, error: Error) -> (res: Result<Replacement, Error>)
        ensures
            res == Err::<Replacement, Error>(error),
    {
        Err(error)
    }
}

} // verus!

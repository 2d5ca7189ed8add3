//! The choices that the command line offers.

use vstd::prelude::*;

verus! {

/// Whether and how the run asks the user.
#[derive(Debug, Clone, Copy, PartialEq, Eq, Structural)]
pub enum Interactive {
    /// Never ask.
    Off,
    /// Ask in the terminal.
    Text,
    /// Ask in a window.
    Gui,
}

impl Default for Interactive {
    fn default() -> (res: Self)
        ensures
            res is Off,
    {
        Interactive::Off
    }
}

/// Which times of the file may prefix it.
#[derive(Debug, Clone, Copy, PartialEq, Eq, Structural)]
pub enum Metadata {
    /// Neither time.
    Neither,
    /// The creation time.
    Created,
    /// The modification time.
    Modified,
    /// Both times.
    Both,
}

impl Default for Metadata {
    fn default() -> (res: Self)
        ensures
            res is Neither,
    {
        Metadata::Neither
    }
}

impl Metadata {
    /// Whether the creation time may prefix a file.
    pub fn created(&self) -> (res: bool)
        ensures
            res == (*self is Created || *self is Both),
    {
        matches!(self, Metadata::Created | Metadata::Both)
    }

    /// Whether the modification time may prefix a file.
    pub fn modified(&self) -> (res: bool)
        ensures
            res == (*self is Modified || *self is Both),
    {
        matches!(self, Metadata::Modified | Metadata::Both)
    }

    /// The name of the choice, as the debug output shows it.
    pub fn debug_name(&self) -> (res: &'static str)
        ensures
            res@ == (match *self {
                Metadata::Neither => "None"@,
                Metadata::Created => "Created"@,
                Metadata::Modified => "Modified"@,
                Metadata::Both => "Both"@,
            }),
    {
        match self {
            Metadata::Neither => "None",
            Metadata::Created => "Created",
            Metadata::Modified => "Modified",
            Metadata::Both => "Both",
        }
    }
}

/// Whether the user wants the time with the date, from the two flags of the
/// command line: `time` is cleared by `--no-time`, `no_time` is set by
/// `--time`, the last one given winning. They differ when neither was given,
/// which means no preference.
pub fn time_choice(time: bool, no_time: bool) -> (res: Option<bool>)
    ensures
        res == (if time != no_time {
            None::<bool>
        } else {
            Some(time)
        }),
{
    if time != no_time {
        None
    } else {
        Some(time)
    }
}

} // verus!

//! The desktop notification that follows a run: its texts and the progress
//! it shows. Showing and updating the notification belongs to the caller.

use vstd::prelude::*;

use crate::processing::error::{debug_quote, debug_text};
use crate::processing::log_reporter::{decimal, decimal_text};
use crate::text::concat3;

verus! {

/// The summary of the notification.
pub const SUMMARY: &'static str = "Prefix by date";

/// The body of the notification before the first path.
pub const FIRST_BODY: &'static str = "Processing files";

/// Counts the processed paths for the notification.
#[derive(Debug)]
pub struct NotifReporter {
    /// How many paths there are.
    pub count: usize,
    /// How many paths were processed.
    pub current: usize,
}

impl Default for NotifReporter {
    fn default() -> (res: Self)
        ensures
            res.count == 0,
            res.current == 0,
    {
        NotifReporter { count: 0, current: 0 }
    }
}

impl NotifReporter {
    /// The progress line: how many paths were processed out of how many.
    pub open spec fn spec_progress_bar(&self) -> Seq<char> {
        "Processing "@ + decimal(self.current as nat) + seq!['/'] + decimal(self.count as nat)
    }

    /// The body of the notification, about the path being processed if any.
    pub open spec fn spec_message(&self, path: Option<Seq<char>>) -> Seq<char> {
        match path {
            Some(p) => "Processing "@ + debug_text(p) + ".<br>"@ + self.spec_progress_bar(),
            None => self.spec_progress_bar(),
        }
    }

    /// Records that `count` paths are to be processed.
    pub fn setup(&mut self, count: usize)
        ensures
            final(self).count == count,
            final(self).current == old(self).current,
    {
        self.count = count;
    }

    /// One more path was processed.
    fn inc_progress(&mut self)
        requires
            old(self).current < usize::MAX,
        ensures
            final(self).current == old(self).current + 1,
            final(self).count == old(self).count,
    {
        self.current = self.current + 1;
    }

    /// The progress line.
    pub fn progress_bar(&self) -> (res: String)
        ensures
            res@ == self.spec_progress_bar(),
    {
        proof {
            reveal_strlit("/");
        }
        let mut res = concat3("Processing ", decimal_text(self.current).as_str(), "/");
        res.append(decimal_text(self.count).as_str());
        res
    }

    /// The body of the notification, about `path` if given.
    pub fn message(&self, path: Option<&str>) -> (res: String)
        ensures
            res@ == self.spec_message(match path {
                Some(p) => Some(p@),
                None => None,
            }),
    {
        match path {
            Some(p) => {
                let mut res = concat3("Processing ", debug_quote(p).as_str(), ".<br>");
                res.append(self.progress_bar().as_str());
                res
            },
            None => self.progress_bar(),
        }
    }

    /// The body for the path `path` being processed.
    pub fn processing(&self, path: &str) -> (res: String)
        ensures
            res@ == self.spec_message(Some(path@)),
    {
        self.message(Some(path))
    }

    /// A path was renamed.
    pub fn processing_ok(&mut self)
        requires
            old(self).current < usize::MAX,
        ensures
            final(self).current == old(self).current + 1,
            final(self).count == old(self).count,
    {
        self.inc_progress();
    }

    /// Processing a path failed.
    pub fn processing_err(&mut self)
        requires
            old(self).current < usize::MAX,
        ensures
            final(self).current == old(self).current + 1,
            final(self).count == old(self).count,
    {
        self.inc_progress();
    }
}

} // verus!

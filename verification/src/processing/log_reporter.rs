//! The lines a run writes to the log.

use vstd::prelude::*;

use crate::processing::error::{debug_quote, debug_text, Error};
use crate::replacement::Replacement;
use crate::text::{concat2, concat3, push_char};

verus! {

/// The decimal digit `d`.
pub open spec fn spec_digit(d: nat) -> char {
    if d == 0 {
        '0'
    } else if d == 1 {
        '1'
    } else if d == 2 {
        '2'
    } else if d == 3 {
        '3'
    } else if d == 4 {
        '4'
    } else if d == 5 {
        '5'
    } else if d == 6 {
        '6'
    } else if d == 7 {
        '7'
    } else if d == 8 {
        '8'
    } else {
        '9'
    }
}

/// `n` written in decimal, without leading zeros.
pub open spec fn decimal(n: nat) -> Seq<char>
    decreases n,
{
    if n < 10 {
        seq![spec_digit(n)]
    } else {
        decimal(n / 10).push(spec_digit(n % 10))
    }
}

/// The decimal digit `d`.
fn digit(d: usize) -> (res: char)
    requires
        d < 10,
    ensures
        res == spec_digit(d as nat),
{
    if d == 0 {
        '0'
    } else if d == 1 {
        '1'
    } else if d == 2 {
        '2'
    } else if d == 3 {
        '3'
    } else if d == 4 {
        '4'
    } else if d == 5 {
        '5'
    } else if d == 6 {
        '6'
    } else if d == 7 {
        '7'
    } else if d == 8 {
        '8'
    } else {
        '9'
    }
}

/// `n` written in decimal.
pub fn decimal_text(n: usize) -> (res: String)
    ensures
        res@ == decimal(n as nat),
    decreases n,
{
    if n < 10 {
        let mut res = String::new();
        push_char(&mut res, digit(n));
        res
    } else {
        let mut res = decimal_text(n / 10);
        push_char(&mut res, digit(n % 10));
        res
    }
}

/// Writes the progress of a run to the log: it counts the paths as they
/// come and tells where each one stands.
#[derive(Debug)]
pub struct LogReporter {
    /// How many paths there are.
    pub count: usize,
    /// How many paths were started.
    pub current: usize,
}

impl Default for LogReporter {
    fn default() -> (res: Self)
        ensures
            res.count == 0,
            res.current == 0,
    {
        LogReporter { count: 0, current: 0 }
    }
}

impl LogReporter {
    /// The line about a path: the message, the progress and the quoted path.
    pub open spec fn spec_report(&self, message: Seq<char>, path: Seq<char>) -> Seq<char> {
        message + seq![' '] + decimal(self.current as nat) + seq!['/'] + decimal(self.count as nat) + seq![
            ':',
            ' ',
        ] + debug_text(path)
    }

    /// Records that `number` paths are to be processed; gives the line to
    /// log.
    pub fn count(&mut self, number: usize) -> (res: String)
        ensures
            final(self).count == number,
            final(self).current == old(self).current,
            res@ == "Processing "@ + decimal(number as nat) + " paths..."@,
    {
        self.count = number;
        concat3("Processing ", decimal_text(number).as_str(), " paths...")
    }

    /// Records that one more path is started; gives the line to log.
    pub fn processing(&mut self, path: &str) -> (res: String)
        requires
            old(self).current < usize::MAX,
        ensures
            final(self).count == old(self).count,
            final(self).current == old(self).current + 1,
            res@ == final(self).spec_report("Processing path"@, path@),
    {
        self.current = self.current + 1;
        self.report_path("Processing path", path)
    }

    /// The lines to log when processing `path` failed: where it stands, then
    /// the error.
    pub fn processing_err(&self, path: &str, error: &Error) -> (res: (String, String))
        ensures
            res.0@ == self.spec_report("Error processing path"@, path@),
            res.1@ == error.spec_message(),
    {
        (self.report_path("Error processing path", path), error.message())
    }

    /// The lines to log when a path was renamed: where it stands, then the
    /// rename.
    pub fn processing_ok(&self, replacement: &Replacement) -> (res: (String, String))
        ensures
            res.0@ == self.spec_report("Success processing path"@, replacement.spec_path()),
            res.1@ == "Into: "@ + replacement@.parent + seq!['/', '{'] + replacement@.file_stem
                + seq![' ', '=', '>', ' '] + replacement@.new_file_stem + seq!['}'] + match replacement@.extension {
                Some(ext) => seq!['.'] + ext,
                None => Seq::<char>::empty(),
            },
    {
        let path = replacement.path();
        (
            self.report_path("Success processing path", path.as_str()),
            concat2("Into: ", replacement.to_display().as_str()),
        )
    }

    /// The line about `path`: the message, the progress and the quoted path.
    pub fn report_path(&self, message: &str, path: &str) -> (res: String)
        ensures
            res@ == self.spec_report(message@, path@),
    {
        let mut res = concat2(message, " ");
        res.append(decimal_text(self.current).as_str());
        res.append("/");
        res.append(decimal_text(self.count).as_str());
        res.append(": ");
        res.append(debug_quote(path).as_str());
        proof {
            reveal_strlit(" ");
            reveal_strlit("/");
            reveal_strlit(": ");
        }
        res
    }
}

} // verus!

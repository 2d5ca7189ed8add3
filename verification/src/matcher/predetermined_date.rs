//! Prefixing by a date chosen in advance, such as today's.

use vstd::prelude::*;

use crate::application::arguments::DEFAULT_DATE_FORMAT;
use crate::matcher::date_time::LocalDateTime;
use crate::replacement::{Replacement, ReplacementView};
use crate::text::{concat3, owned};

verus! {

/// The name of the matcher that prefixes by today's date.
pub const TODAY: &'static str = "predetermined_date today";

/// Which date was chosen in advance.
#[derive(Debug, Clone, Copy)]
pub enum When {
    Today,
}

impl When {
    /// The name of the matcher for this choice.
    pub fn name(&self) -> (res: &'static str)
        ensures
            res@ == TODAY@,
    {
        match self {
            When::Today => TODAY,
        }
    }
}

/// Prefixes every file by the same date.
#[derive(Debug, Clone)]
pub struct PredeterminedDate {
    pub when: When,
    pub date_time: LocalDateTime,
    pub format: String,
}

impl PredeterminedDate {
    /// Today's date, under the default date format.
    pub fn default() -> (res: Self)
        ensures
            res.format@ == DEFAULT_DATE_FORMAT@,
            res.date_time.is_valid(),
    {
        PredeterminedDate { when: When::Today, date_time: LocalDateTime::now(), format: owned(DEFAULT_DATE_FORMAT) }
    }

    /// Today's date, under `format`.
    pub fn new(format: &str) -> (res: Self)
        ensures
            res.format@ == format@,
            res.date_time.is_valid(),
    {
        PredeterminedDate { when: When::Today, date_time: LocalDateTime::now(), format: owned(format) }
    }

    /// The name of the matcher.
    pub fn name(&self) -> (res: &str)
        ensures
            res@ == TODAY@,
    {
        self.when.name()
    }

    /// A space separates the date from the file stem.
    pub fn delimiter(&self) -> (res: &str)
        ensures
            res@ == seq![' '],
    {
        proof {
            reveal_strlit(" ");
        }
        " "
    }

    /// The date format of the prefix.
    pub fn date_format(&self) -> (res: &str)
        ensures
            res@ == self.format@,
    {
        self.format.as_str()
    }

    /// A rename by a date chosen in advance needs no confirmation.
    pub fn auto_accept(&self) -> (res: bool)
        ensures
            res,
    {
        true
    }

    /// The kept text and the date for `replacement`: the whole stem, and the
    /// chosen date.
    pub fn determine(&self, replacement: &Replacement) -> (res: (String, LocalDateTime))
        ensures
            res.0 == replacement.file_stem,
            res.1 == self.date_time,
    {
        (replacement.file_stem.clone(), self.date_time)
    }

    /// What a rename of `path` by this matcher is: the stem becomes the date
    /// printed under the format, a space, and the old stem.
    pub open spec fn spec_check(&self, path: Seq<char>) -> Option<ReplacementView> {
        match Replacement::spec_try_from(path) {
            Ok(base) => match self.date_time.spec_format(self.format@) {
                Some(date) => Some(ReplacementView { new_file_stem: date + seq![' '] + base.file_stem, ..base }),
                None => None,
            },
            Err(_) => None,
        }
    }

    /// The rename of `path` by this matcher.
    pub fn check(&self, path: &str) -> (res: Option<Replacement>)
        ensures
            match res {
                Some(r) => self.spec_check(path@) == Some(r@),
                None => self.spec_check(path@) is None,
            },
    {
        let rep = match Replacement::try_from(path) {
            Ok(rep) => rep,
            Err(_) => {
                return None;
            },
        };
        let (kept, dt) = self.determine(&rep);
        let date = match dt.format(self.format.as_str()) {
            Some(date) => date,
            None => {
                return None;
            },
        };
        proof {
            reveal_strlit(" ");
        }
        let stem = concat3(date.as_str(), " ", kept.as_str());
        let ghost base = rep@;
        let res = rep.new_file_stem(stem);
        proof {
            assert(res@.new_file_stem =~= date@ + seq![' '] + base.file_stem);
            assert(res@ == ReplacementView { new_file_stem: date@ + seq![' '] + base.file_stem, ..base });
        }
        Some(res)
    }
}

} // verus!

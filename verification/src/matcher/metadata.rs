//! Prefixing by the creation or modification time of the file.

use vstd::prelude::*;

use crate::matcher::date_time::LocalDateTime;
use crate::replacement::{Replacement, ReplacementView};
use crate::text::{concat3, owned};

verus! {

/// The name of the matcher by creation time.
pub const CREATED: &'static str = "created";

/// The name of the matcher by modification time.
pub const MODIFIED: &'static str = "modified";

/// Which time of the file prefixes it.
#[derive(Debug, Clone, Copy)]
pub enum Kind {
    Created,
    Modified,
}

impl Kind {
    /// The name of the matcher for this kind.
    pub fn name(&self) -> (res: &'static str)
        ensures
            res@ == (match self {
                Kind::Created => CREATED@,
                Kind::Modified => MODIFIED@,
            }),
    {
        match self {
            Kind::Modified => MODIFIED,
            Kind::Created => CREATED,
        }
    }
}

/// Prefixes a file by one of its times, which the caller reads from the file
/// system.
#[derive(Debug, Clone)]
pub struct Metadata {
    pub kind: Kind,
    pub format: String,
    pub time: bool,
}

impl Metadata {
    /// Prefixes by the creation time.
    pub fn new_created(format: &str, time: bool) -> (res: Self)
        ensures
            res.kind is Created,
            res.format@ == format@,
            res.time == time,
    {
        Self::new(Kind::Created, format, time)
    }

    /// Prefixes by the modification time.
    pub fn new_modified(format: &str, time: bool) -> (res: Self)
        ensures
            res.kind is Modified,
            res.format@ == format@,
            res.time == time,
    {
        Self::new(Kind::Modified, format, time)
    }

    /// Prefixes by the time of the kind `kind`.
    pub fn new(kind: Kind, format: &str, time: bool) -> (res: Self)
        ensures
            res.kind == kind,
            res.format@ == format@,
            res.time == time,
    {
        Metadata { kind, format: owned(format), time }
    }

    /// The name of the matcher.
    pub fn name(&self) -> (res: &str)
        ensures
            res@ == (match self.kind {
                Kind::Created => CREATED@,
                Kind::Modified => MODIFIED@,
            }),
    {
        self.kind.name()
    }

    /// A space separates the date from the file stem.
    pub fn delimiter(&self) -> (res: &str)
        ensures
            res@ == seq![' '],
    {
        proof {
            reveal_strlit(" ");
        }
        " "
    }

    /// The date format of the prefix.
    pub fn date_format(&self) -> (res: &str)
        ensures
            res@ == self.format@,
    {
        self.format.as_str()
    }

    /// Whether the matcher handles the time as well as the date.
    pub fn time(&self) -> (res: bool)
        ensures
            res == self.time,
    {
        self.time
    }

    /// A rename by a file time is confirmed by the user first.
    pub fn auto_accept(&self) -> (res: bool)
        ensures
            !res,
    {
        false
    }

    /// What a rename of `path` is when the file's time of this kind is
    /// `file_time` (`None` when it could not be read).
    pub open spec fn spec_check(&self, path: Seq<char>, file_time: Option<LocalDateTime>) -> Option<ReplacementView> {
        match (Replacement::spec_try_from(path), file_time) {
            (Ok(base), Some(time)) => match time.spec_format(self.format@) {
                Some(date) => Some(ReplacementView { new_file_stem: date + seq![' '] + base.file_stem, ..base }),
                None => None,
            },
            _ => None,
        }
    }

    /// The rename of `path`, the file's time of this kind being `file_time`:
    /// the stem becomes the time printed under the format, a space, and the
    /// old stem.
    pub fn check(&self, path: &str, file_time: Option<LocalDateTime>) -> (res: Option<Replacement>)
        ensures
            match res {
                Some(r) => self.spec_check(path@, file_time) == Some(r@),
                None => self.spec_check(path@, file_time) is None,
            },
    {
        let rep = match Replacement::try_from(path) {
            Ok(rep) => rep,
            Err(_) => {
                return None;
            },
        };
        let time = match file_time {
            Some(time) => time,
            None => {
                return None;
            },
        };
        let date = match time.format(self.format.as_str()) {
            Some(date) => date,
            None => {
                return None;
            },
        };
        proof {
            reveal_strlit(" ");
        }
        let stem = concat3(date.as_str(), " ", rep.file_stem.as_str());
        let ghost base = rep@;
        let res = rep.new_file_stem(stem);
        proof {
            assert(res@.new_file_stem =~= date@ + seq![' '] + base.file_stem);
            assert(res@ == ReplacementView { new_file_stem: date@ + seq![' '] + base.file_stem, ..base });
        }
        Some(res)
    }
}

} // verus!

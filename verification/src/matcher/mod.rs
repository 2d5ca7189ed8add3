//! Matchers: ways of finding the date that prefixes a file.

pub mod date_time;
pub mod metadata;
pub mod number;
pub mod pattern;
pub mod laws;
pub mod predetermined_date;

pub use date_time::LocalDateTime;
pub use metadata::Metadata;
pub use pattern::Pattern;
pub use predetermined_date::PredeterminedDate;

use vstd::prelude::*;

use crate::replacement::ReplacementView;

verus! {

/// What the caller knows of a path from the file system.
#[derive(Debug, Clone)]
pub struct PathFacts {
    /// Whether the path exists.
    pub exists: bool,
    /// The creation time of the file, if it could be read.
    pub created: Option<LocalDateTime>,
    /// The modification time of the file, if it could be read.
    pub modified: Option<LocalDateTime>,
    /// The directory holding the path as found on disk (symbolic links and
    /// relative parts followed), if it could be found.
    pub parent: Option<String>,
}

impl PathFacts {
    /// The path that a rename of `path` works on: its file name in the
    /// directory found on disk, when it was found.
    pub open spec fn spec_resolved(&self, path: Seq<char>) -> Seq<char> {
        crate::replacement::spec_resolved_path(path, crate::replacement::opt_view(self.parent))
    }
}

/// One way of finding the date that prefixes a file.
#[derive(Debug, Clone)]
pub enum Matcher {
    Pattern(Pattern),
    PredeterminedDate(PredeterminedDate),
    Metadata(Metadata),
}

impl Matcher {
    /// The name of the matcher.
    pub open spec fn spec_name(&self) -> Seq<char> {
        match self {
            Matcher::Pattern(p) => p.name@,
            Matcher::PredeterminedDate(_) => predetermined_date::TODAY@,
            Matcher::Metadata(m) => match m.kind {
                metadata::Kind::Created => metadata::CREATED@,
                metadata::Kind::Modified => metadata::MODIFIED@,
            },
        }
    }

    /// Whether the renames of the matcher need no confirmation.
    pub open spec fn spec_auto_accept(&self) -> bool {
        self is PredeterminedDate
    }

    /// Whether `r` is a rename that the matcher may give for `path`.
    pub open spec fn spec_outcome(&self, path: Seq<char>, facts: PathFacts, r: ReplacementView) -> bool {
        let path = facts.spec_resolved(path);
        match self {
            Matcher::Pattern(p) => p.spec_outcome(path, r),
            Matcher::PredeterminedDate(d) => d.spec_check(path) == Some(r),
            Matcher::Metadata(m) => m.spec_check(
                path,
                match m.kind {
                    metadata::Kind::Created => facts.created,
                    metadata::Kind::Modified => facts.modified,
                },
            ) == Some(r),
        }
    }

    /// Whether `res` is what the matcher gives for `path`: a rename it may
    /// give, none when it surely gives none, surely one when it is not a
    /// pattern and does not surely give none, and for a pattern what its
    /// regex and the date it resolves to give.
    pub open spec fn spec_gives(&self, path: Seq<char>, facts: PathFacts, res: Option<ReplacementView>) -> bool {
        &&& (res matches Some(r) ==> self.spec_outcome(path, facts, r))
        &&& (self.spec_no_outcome(path, facts) ==> res is None)
        &&& (!(*self is Pattern) && !self.spec_no_outcome(path, facts) ==> res is Some)
        &&& (self matches Matcher::Pattern(p) ==> exists|resolved: Option<LocalDateTime>|
            p.resolved_for_path(facts.spec_resolved(path), resolved) && res == #[trigger] p.spec_check_with(
                facts.spec_resolved(path),
                resolved,
            ))
    }

    /// Whether the matcher surely gives a rename for `path`: one that is not
    /// a pattern and does not surely give none, or a pattern that gives one
    /// whatever the date it resolves to.
    pub open spec fn spec_surely_gives(&self, path: Seq<char>, facts: PathFacts) -> bool {
        match self {
            Matcher::Pattern(p) => forall|resolved: Option<LocalDateTime>|
                p.resolved_for_path(facts.spec_resolved(path), resolved) ==> (#[trigger] p.spec_check_with(
                    facts.spec_resolved(path),
                    resolved,
                )) is Some,
            _ => !self.spec_no_outcome(path, facts),
        }
    }

    /// Whether the matcher surely gives no rename for `path`.
    pub open spec fn spec_no_outcome(&self, path: Seq<char>, facts: PathFacts) -> bool {
        let path = facts.spec_resolved(path);
        match self {
            Matcher::Pattern(p) => p.spec_no_outcome(path),
            Matcher::PredeterminedDate(d) => d.spec_check(path) is None,
            Matcher::Metadata(m) => m.spec_check(
                path,
                match m.kind {
                    metadata::Kind::Created => facts.created,
                    metadata::Kind::Modified => facts.modified,
                },
            ) is None,
        }
    }

    /// The name of the matcher.
    pub fn name(&self) -> (res: &str)
        ensures
            res@ == self.spec_name(),
    {
        match self {
            Matcher::Pattern(p) => p.name(),
            Matcher::PredeterminedDate(d) => d.name(),
            Matcher::Metadata(m) => m.name(),
        }
    }

    /// What separates the date from the kept text.
    pub fn delimiter(&self) -> (res: &str)
        ensures
            self matches Matcher::Pattern(p) ==> res@ == p.delimiter@,
            !(self is Pattern) ==> res@ == seq![' '],
    {
        match self {
            Matcher::Pattern(p) => p.delimiter(),
            Matcher::PredeterminedDate(d) => d.delimiter(),
            Matcher::Metadata(m) => m.delimiter(),
        }
    }

    /// The date format of the prefix.
    pub fn date_format(&self) -> (res: &str)
        ensures
            res@ == (match self {
                Matcher::Pattern(p) => p.format@,
                Matcher::PredeterminedDate(d) => d.format@,
                Matcher::Metadata(m) => m.format@,
            }),
    {
        match self {
            Matcher::Pattern(p) => p.date_format(),
            Matcher::PredeterminedDate(d) => d.date_format(),
            Matcher::Metadata(m) => m.date_format(),
        }
    }

    /// Whether a rename by this matcher can be accepted without asking.
    pub fn auto_accept(&self) -> (res: bool)
        ensures
            res == self.spec_auto_accept(),
    {
        match self {
            Matcher::Pattern(p) => p.auto_accept(),
            Matcher::PredeterminedDate(d) => d.auto_accept(),
            Matcher::Metadata(m) => m.auto_accept(),
        }
    }

    /// The rename that the matcher gives for `path`, if any, worked out in
    /// the directory that `facts` found on disk for it.
    pub fn check(&self, path: &str, facts: &PathFacts) -> (res: Option<crate::replacement::Replacement>)
        ensures
            match res {
                Some(r) => self.spec_outcome(path@, *facts, r@),
                None => true,
            },
            self.spec_no_outcome(path@, *facts) ==> res is None,
            !(*self is Pattern) && !self.spec_no_outcome(path@, *facts) ==> res is Some,
            self matches Matcher::Pattern(p) ==> exists|resolved: Option<LocalDateTime>|
                p.resolved_for_path(facts.spec_resolved(path@), resolved) && crate::replacement::rep_view_opt(res)
                    == #[trigger] p.spec_check_with(facts.spec_resolved(path@), resolved),
            self.spec_gives(path@, *facts, crate::replacement::rep_view_opt(res)),
    {
        let resolved = crate::replacement::resolved_path(path, &facts.parent);
        assert(resolved@ == facts.spec_resolved(path@));
        let on_disk = resolved.as_str();
        match self {
            Matcher::Pattern(p) => {
                let res = p.check(on_disk);
                proof {
                    let w = choose|w: Option<LocalDateTime>|
                        p.resolved_for_path(resolved@, w) && crate::replacement::rep_view_opt(res)
                            == #[trigger] p.spec_check_with(resolved@, w);
                    assert(p.spec_check_with(facts.spec_resolved(path@), w) == p.spec_check_with(resolved@, w));
                }
                res
            },
            Matcher::PredeterminedDate(d) => d.check(on_disk),
            Matcher::Metadata(m) => match m.kind {
                metadata::Kind::Created => m.check(on_disk, facts.created),
                metadata::Kind::Modified => m.check(on_disk, facts.modified),
            },
        }
    }
}

} // verus!

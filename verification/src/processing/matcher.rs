//! A matcher together with what the user decided about it during a run.

use vstd::prelude::*;

use crate::matcher::{Matcher, PathFacts};
use crate::replacement::Replacement;

verus! {

/// A matcher, whether its renames are accepted without asking, and whether
/// the user chose to ignore it.
#[derive(Debug)]
pub struct ProcessingMatcher {
    pub confirmed: bool,
    pub ignored: bool,
    pub matcher: Matcher,
}

impl ProcessingMatcher {
    /// A matcher at the start of a run: confirmed exactly when its renames
    /// need no confirmation, not ignored.
    pub fn from(matcher: Matcher) -> (res: Self)
        ensures
            res.confirmed == matcher.spec_auto_accept(),
            !res.ignored,
            res.matcher == matcher,
    {
        ProcessingMatcher { confirmed: matcher.auto_accept(), ignored: false, matcher }
    }

    /// The rename that the matcher gives for `path`.
    pub fn check(&self, path: &str, facts: &PathFacts) -> (res: Option<Replacement>)
        ensures
            match res {
                Some(r) => self.matcher.spec_outcome(path@, *facts, r@),
                None => true,
            },
            self.matcher.spec_no_outcome(path@, *facts) ==> res is None,
            !(self.matcher is Pattern) && !self.matcher.spec_no_outcome(path@, *facts) ==> res is Some,
            self.matcher matches Matcher::Pattern(p) ==> exists|resolved: Option<crate::matcher::LocalDateTime>|
                p.resolved_for_path(facts.spec_resolved(path@), resolved) && crate::replacement::rep_view_opt(res)
                    == #[trigger] p.spec_check_with(facts.spec_resolved(path@), resolved),
            self.matcher.spec_gives(path@, *facts, crate::replacement::rep_view_opt(res)),
    {
        self.matcher.check(path, facts)
    }

    /// Whether renames by the matcher are used without asking.
    pub fn confirmed(&self) -> (res: bool)
        ensures
            res == self.confirmed,
    {
        self.confirmed
    }

    /// From now on, renames by the matcher are used without asking.
    pub fn confirm(&mut self)
        ensures
            final(self).confirmed,
            final(self).ignored == old(self).ignored,
            final(self).matcher == old(self).matcher,
    {
        self.confirmed = true;
    }

    /// Whether the matcher is left out.
    pub fn ignored(&self) -> (res: bool)
        ensures
            res == self.ignored,
    {
        self.ignored
    }

    /// From now on, the matcher is left out.
    pub fn ignore(&mut self)
        ensures
            final(self).ignored,
            final(self).confirmed == old(self).confirmed,
            final(self).matcher == old(self).matcher,
    {
        self.ignored = true;
    }
}

} // verus!

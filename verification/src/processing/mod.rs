//! Deciding, path after path, which rename to perform.
//!
//! A run goes through the paths in order. For each, the matchers that are not
//! ignored are asked for a rename, in order; the first rename found is used
//! at once when its matcher is confirmed, and put to the user otherwise. The
//! user may accept it, accept it and every later rename of the same matcher,
//! skip the path, refuse the rename (the next matchers are then asked),
//! ignore the matcher from now on, abort the run, or give another rename.
//! When no matcher gives a rename, the user is asked to rescue the path, unless
//! a rename was found and refused. The chosen rename is then performed, and
//! the outcome reported.
//!
//! The file system and the user are outside the library: `Processing` is a
//! state machine. Each call of `step` takes what the caller learnt (an
//! `Event`) and tells it what to do next (a `Command`).

pub mod error;
pub mod laws;
pub mod log_reporter;
pub mod matcher;
pub mod notif_reporter;

pub use error::Error;
pub use matcher::ProcessingMatcher;

use vstd::prelude::*;

use crate::matcher::{Matcher, PathFacts};
use crate::replacement::{rep_view_opt, Replacement};
use crate::text::owned;

verus! {

/// What the user decides about a rename that a matcher found.
#[derive(Debug)]
pub enum Confirmation {
    /// Use the rename.
    Accept,
    /// Use the rename, and every later rename of the same matcher.
    Always,
    /// Leave the path as it is.
    Skip,
    /// Do not use the rename; ask the next matchers.
    Refuse,
    /// Do not use the rename, and leave the matcher out from now on.
    Ignore,
    /// Stop the run.
    Abort,
    /// Use this rename instead.
    Replace(Replacement),
}

impl Confirmation {
    /// Whether two confirmations are of the same kind, whatever rename a
    /// `Replace` carries.
    pub open spec fn same_kind(&self, other: &Confirmation) -> bool {
        match (self, other) {
            (Confirmation::Accept, Confirmation::Accept) => true,
            (Confirmation::Always, Confirmation::Always) => true,
            (Confirmation::Skip, Confirmation::Skip) => true,
            (Confirmation::Refuse, Confirmation::Refuse) => true,
            (Confirmation::Ignore, Confirmation::Ignore) => true,
            (Confirmation::Abort, Confirmation::Abort) => true,
            (Confirmation::Replace(_), Confirmation::Replace(_)) => true,
            _ => false,
        }
    }
}

impl PartialEq for Confirmation {
    fn eq(&self, other: &Confirmation) -> (res: bool) {
        match (self, other) {
            (Confirmation::Accept, Confirmation::Accept) => true,
            (Confirmation::Always, Confirmation::Always) => true,
            (Confirmation::Skip, Confirmation::Skip) => true,
            (Confirmation::Refuse, Confirmation::Refuse) => true,
            (Confirmation::Ignore, Confirmation::Ignore) => true,
            (Confirmation::Abort, Confirmation::Abort) => true,
            (Confirmation::Replace(_), Confirmation::Replace(_)) => true,
            _ => false,
        }
    }
}

impl vstd::std_specs::cmp::PartialEqSpecImpl for Confirmation {
    open spec fn obeys_eq_spec() -> bool {
        true
    }

    open spec fn eq_spec(&self, other: &Confirmation) -> bool {
        self.same_kind(other)
    }
}

impl Clone for Confirmation {
    fn clone(&self) -> (res: Self)
        ensures
            res == *self,
    {
        match self {
            Confirmation::Accept => Confirmation::Accept,
            Confirmation::Always => Confirmation::Always,
            Confirmation::Skip => Confirmation::Skip,
            Confirmation::Refuse => Confirmation::Refuse,
            Confirmation::Ignore => Confirmation::Ignore,
            Confirmation::Abort => Confirmation::Abort,
            Confirmation::Replace(r) => Confirmation::Replace(r.clone()),
        }
    }
}

/// Hears how a run goes; the front ends implement it.
pub trait Reporter {
    /// This many paths are about to be processed.
    fn setup(&self, count: usize);

    /// This path is being processed.
    fn processing(&self, path: &str);

    /// A path was renamed so.
    fn processing_ok(&self, replacement: &Replacement);

    /// Processing this path failed so.
    fn processing_err(&self, path: &str, error: &Error);
}

/// Answers the questions of a run; the front ends implement it.
pub trait Communication: Reporter {
    /// The decision on a rename that a matcher found.
    fn confirm(&self, replacement: &Replacement) -> Confirmation;

    /// A rename for the path that this error is about, or an error.
    fn rescue(&self, error: Error) -> Result<Replacement, Error>;
}

/// A copy of an optional rename.
pub fn clone_candidate(c: &Option<Replacement>) -> (res: Option<Replacement>)
    ensures
        res == *c,
{
    match c {
        Some(r) => Some(r.clone()),
        None => None,
    }
}

/// Where a run stands.
#[derive(Debug)]
pub enum Stage {
    /// Not started.
    Ready,
    /// Waiting for the caller to report the number of paths.
    Setup,
    /// Waiting for what the file system says of the path at this index.
    Inspecting(usize),
    /// Waiting for the user's decision on the rename that the matcher at
    /// `matcher` found; `candidates` holds the renames found for the path.
    Confirming { index: usize, matcher: usize, candidates: Vec<Option<Replacement>> },
    /// Waiting for the user to rescue the path at this index.
    Rescuing(usize),
    /// Waiting for the outcome of the rename of the path at this index.
    Executing(usize),
    /// Waiting for the caller to report the outcome for the path at `index`;
    /// `abort` when the run stops after that.
    Reporting { index: usize, abort: bool },
    /// The run is over.
    Finished,
}

/// What the caller learnt.
#[derive(Debug)]
pub enum Event {
    /// The caller wants the run to start.
    Start,
    /// The caller reported what it was told to report.
    Acknowledged,
    /// What the file system says of the path being inspected.
    Inspected(PathFacts),
    /// The user's decision on the rename put to them.
    Confirmed(Confirmation),
    /// What the user's rescue of the path gave.
    Rescued(Result<Replacement, Error>),
    /// The outcome of the rename: the rename performed, or the error.
    Executed(Result<Replacement, Error>),
}

/// What the caller is to do next.
#[derive(Debug)]
pub enum Command {
    /// Report that this many paths are about to be processed.
    ReportSetup(usize),
    /// Report that this path is being processed, and inspect it.
    Inspect(String),
    /// Put this rename to the user.
    Confirm(Replacement),
    /// Ask the user to rescue the path that this error is about.
    Rescue(Error),
    /// Perform this rename.
    Execute(Replacement),
    /// Report that the path was renamed so.
    ReportOk(Replacement),
    /// Report that processing this path failed so.
    ReportErr(String, Error),
    /// The run is over, with this outcome.
    Finish(Result<(), Error>),
}

/// A run over some paths with some matchers.
#[derive(Debug)]
pub struct Processing {
    pub matchers: Vec<ProcessingMatcher>,
    pub paths: Vec<String>,
    pub stage: Stage,
}

/// The first index from `from` on whose matcher is not ignored and whose
/// candidate is a rename; `-1` when there is none.
pub open spec fn first_candidate(ms: Seq<ProcessingMatcher>, cs: Seq<Option<Replacement>>, from: int) -> int
    decreases ms.len() - from,
{
    if from < 0 || from >= ms.len() || from >= cs.len() {
        -1
    } else if !ms[from].ignored && cs[from] is Some {
        from
    } else {
        first_candidate(ms, cs, from + 1)
    }
}

/// `first_candidate` is a rename of a matcher that is not ignored, from
/// `from` on, and every index before it has none; `-1` means none at all.
pub proof fn lemma_first_candidate(ms: Seq<ProcessingMatcher>, cs: Seq<Option<Replacement>>, from: int)
    requires
        0 <= from,
        ms.len() == cs.len(),
    ensures
        first_candidate(ms, cs, from) == -1 || (from <= first_candidate(ms, cs, from) < ms.len()
            && !ms[first_candidate(ms, cs, from)].ignored && cs[first_candidate(ms, cs, from)] is Some),
        first_candidate(ms, cs, from) == -1 ==> forall|k: int|
            from <= k < ms.len() ==> ms[k].ignored || cs[k] is None,
        forall|k: int|
            from <= k < first_candidate(ms, cs, from) ==> ms[k].ignored || cs[k] is None,
    decreases ms.len() - from,
{
    if from < ms.len() {
        lemma_first_candidate(ms, cs, from + 1);
    }
}

impl Processing {
    /// Whether the indices of the stage are within the paths and matchers.
    pub open spec fn wf(&self) -> bool {
        &&& self.paths@.len() <= usize::MAX
        &&& self.matchers@.len() <= usize::MAX
        &&& match self.stage {
            Stage::Inspecting(i) => i < self.paths@.len(),
            Stage::Rescuing(i) => i < self.paths@.len(),
            Stage::Executing(i) => i < self.paths@.len(),
            Stage::Reporting { index, abort } => index < self.paths@.len(),
            Stage::Confirming { index, matcher, candidates } => {
                &&& index < self.paths@.len()
                &&& matcher < self.matchers@.len()
                &&& candidates@.len() == self.matchers@.len()
                &&& candidates@[matcher as int] is Some
            },
            _ => true,
        }
    }

    /// Whether the stage waits for an event of this kind.
    pub open spec fn spec_accepts(&self, event: Event) -> bool {
        match (self.stage, event) {
            (Stage::Ready, Event::Start) => true,
            (Stage::Setup, Event::Acknowledged) => true,
            (Stage::Inspecting(_), Event::Inspected(_)) => true,
            (Stage::Confirming { .. }, Event::Confirmed(_)) => true,
            (Stage::Rescuing(_), Event::Rescued(_)) => true,
            (Stage::Executing(_), Event::Executed(_)) => true,
            (Stage::Reporting { .. }, Event::Acknowledged) => true,
            _ => false,
        }
    }

    /// Whether `cmd` reports that processing the path `path` failed with an
    /// error that `e` describes.
    pub open spec fn reports_err(cmd: Command, path: Seq<char>, e: spec_fn(Error) -> bool) -> bool {
        cmd matches Command::ReportErr(p, err) && p@ == path && e(err)
    }

    /// Whether `post` and `cmd` go on with the path at index `i`: inspect it,
    /// or finish the run when there is none.
    pub open spec fn spec_next(ms: Seq<ProcessingMatcher>, paths: Seq<String>, i: int, post: Processing, cmd: Command) -> bool {
        &&& post.matchers@ == ms
        &&& post.paths@ == paths
        &&& if i < paths.len() {
            post.stage == Stage::Inspecting(i as usize) && (cmd matches Command::Inspect(p) && p@ == paths[i]@)
        } else {
            post.stage is Finished && cmd == Command::Finish(Ok(()))
        }
    }

    /// Whether `post` and `cmd` are what the search for a rename of the path at
    /// `index` gives, from the matcher at `from` on, with the renames found
    /// `cands`, `found` telling whether a rename was already found and refused:
    /// the first rename of a matcher that is not ignored is used when the
    /// matcher is confirmed and put to the user otherwise; when there is
    /// none, the path has no match, which the user is asked to rescue unless
    /// a rename was found.
    pub open spec fn spec_search(
        ms: Seq<ProcessingMatcher>,
        paths: Seq<String>,
        index: int,
        from: int,
        cands: Vec<Option<Replacement>>,
        found: bool,
        post: Processing,
        cmd: Command,
    ) -> bool {
        let j = first_candidate(ms, cands@, from);
        let path = paths[index]@;
        &&& post.matchers@ == ms
        &&& post.paths@ == paths
        &&& if j >= 0 {
            if ms[j].confirmed {
                post.stage == Stage::Executing(index as usize) && cmd == Command::Execute(cands@[j]->0)
            } else {
                post.stage == (Stage::Confirming { index: index as usize, matcher: j as usize, candidates: cands })
                    && cmd == Command::Confirm(cands@[j]->0)
            }
        } else if found {
            post.stage == (Stage::Reporting { index: index as usize, abort: false })
                && Self::reports_err(cmd, path, |e: Error| e matches Error::NoMatch(p) && p@ == path)
        } else {
            post.stage == Stage::Rescuing(index as usize) && (cmd matches Command::Rescue(Error::NoMatch(p))
                && p@ == path)
        }
    }

    /// Whether `cands` holds, for each matcher, what it gives for `path`:
    /// `None` for an ignored matcher, and for any other exactly what
    /// `Matcher::check` gives.
    pub open spec fn valid_candidates(ms: Seq<ProcessingMatcher>, path: Seq<char>, facts: PathFacts, cands: Seq<Option<Replacement>>) -> bool {
        &&& cands.len() == ms.len()
        &&& forall|j: int|
            0 <= j < ms.len() ==> {
                &&& ms[j].ignored ==> cands[j] is None
                &&& ms[j].matcher.spec_no_outcome(path, facts) ==> cands[j] is None
                &&& (cands[j] matches Some(r) ==> ms[j].matcher.spec_outcome(path, facts, r@))
                &&& !ms[j].ignored ==> ms[j].matcher.spec_gives(path, facts, rep_view_opt(cands[j]))
            }
    }

    /// The matcher at `j` with the given flags.
    pub open spec fn flagged(m: ProcessingMatcher, confirmed: bool, ignored: bool) -> ProcessingMatcher {
        ProcessingMatcher { confirmed, ignored, matcher: m.matcher }
    }

    /// What a step of the run does: the state after it and the command for the
    /// caller, given the state before it and the event.
    pub open spec fn spec_step(pre: Processing, event: Event, post: Processing, cmd: Command) -> bool {
        let ms = pre.matchers@;
        let paths = pre.paths@;
        match (pre.stage, event) {
            (Stage::Ready, Event::Start) => {
                &&& post.matchers@ == ms
                &&& post.paths@ == paths
                &&& if paths.len() == 0 || ms.len() == 0 {
                    post.stage is Finished && cmd == Command::Finish(Ok(()))
                } else {
                    post.stage is Setup && cmd == Command::ReportSetup(paths.len() as usize)
                }
            },
            (Stage::Setup, Event::Acknowledged) => Self::spec_next(ms, paths, 0, post, cmd),
            (Stage::Inspecting(i), Event::Inspected(facts)) => {
                let path = paths[i as int]@;
                if !facts.exists {
                    &&& post.matchers@ == ms
                    &&& post.paths@ == paths
                    &&& post.stage == (Stage::Reporting { index: i, abort: false })
                    &&& Self::reports_err(cmd, path, |e: Error| e matches Error::NotFound(p) && p@ == path)
                } else {
                    exists|cands: Vec<Option<Replacement>>|
                        Self::valid_candidates(ms, path, facts, cands@) && #[trigger] Self::spec_search(
                            ms,
                            paths,
                            i as int,
                            0,
                            cands,
                            false,
                            post,
                            cmd,
                        )
                }
            },
            (Stage::Confirming { index, matcher, candidates }, Event::Confirmed(conf)) => {
                let path = paths[index as int]@;
                let m = ms[matcher as int];
                match conf {
                    Confirmation::Accept => {
                        &&& post.matchers@ == ms
                        &&& post.paths@ == paths
                        &&& post.stage == Stage::Executing(index)
                        &&& cmd == Command::Execute(candidates@[matcher as int]->0)
                    },
                    Confirmation::Always => {
                        &&& post.matchers@ == ms.update(matcher as int, Self::flagged(m, true, m.ignored))
                        &&& post.paths@ == paths
                        &&& post.stage == Stage::Executing(index)
                        &&& cmd == Command::Execute(candidates@[matcher as int]->0)
                    },
                    Confirmation::Skip => {
                        &&& post.matchers@ == ms
                        &&& post.paths@ == paths
                        &&& post.stage == (Stage::Reporting { index, abort: false })
                        &&& Self::reports_err(cmd, path, |e: Error| e matches Error::Skip(p) && p@ == path)
                    },
                    Confirmation::Refuse => Self::spec_search(
                        ms,
                        paths,
                        index as int,
                        matcher + 1,
                        candidates,
                        true,
                        post,
                        cmd,
                    ),
                    Confirmation::Ignore => Self::spec_search(
                        ms.update(matcher as int, Self::flagged(m, m.confirmed, true)),
                        paths,
                        index as int,
                        matcher + 1,
                        candidates,
                        true,
                        post,
                        cmd,
                    ),
                    Confirmation::Abort => {
                        &&& post.matchers@ == ms
                        &&& post.paths@ == paths
                        &&& post.stage == (Stage::Reporting { index, abort: true })
                        &&& Self::reports_err(cmd, path, |e: Error| e is Abort)
                    },
                    Confirmation::Replace(r) => {
                        &&& post.matchers@ == ms
                        &&& post.paths@ == paths
                        &&& post.stage == Stage::Executing(index)
                        &&& cmd == Command::Execute(r)
                    },
                }
            },
            (Stage::Rescuing(i), Event::Rescued(res)) => {
                &&& post.matchers@ == ms
                &&& post.paths@ == paths
                &&& match res {
                    Ok(r) => post.stage == Stage::Executing(i) && cmd == Command::Execute(r),
                    Err(e) => post.stage == (Stage::Reporting { index: i, abort: e is Abort }) && (
                    cmd matches Command::ReportErr(p, err) && p@ == paths[i as int]@ && err == e),
                }
            },
            (Stage::Executing(i), Event::Executed(res)) => {
                &&& post.matchers@ == ms
                &&& post.paths@ == paths
                &&& match res {
                    Ok(r) => post.stage == (Stage::Reporting { index: i, abort: false }) && cmd
                        == Command::ReportOk(r),
                    Err(e) => post.stage == (Stage::Reporting { index: i, abort: e is Abort }) && (
                    cmd matches Command::ReportErr(p, err) && p@ == paths[i as int]@ && err == e),
                }
            },
            (Stage::Reporting { index, abort }, Event::Acknowledged) => {
                if abort {
                    &&& post.matchers@ == ms
                    &&& post.paths@ == paths
                    &&& post.stage is Finished
                    &&& cmd == Command::Finish(Err(Error::Abort))
                } else {
                    Self::spec_next(ms, paths, index + 1, post, cmd)
                }
            },
            _ => false,
        }
    }

    /// A run over `paths` with `matchers`, not started: the matchers whose
    /// renames need no confirmation start confirmed, none starts ignored.
    pub fn new(matchers: Vec<Matcher>, paths: Vec<String>) -> (res: Processing)
        ensures
            res.stage is Ready,
            res.paths == paths,
            res.matchers@.len() == matchers@.len(),
            forall|j: int|
                0 <= j < matchers@.len() ==> res.matchers@[j] == (ProcessingMatcher {
                    confirmed: matchers@[j].spec_auto_accept(),
                    ignored: false,
                    matcher: matchers@[j],
                }),
            res.wf(),
    {
        let ghost orig = matchers@;
        let mut matchers = matchers;
        let mut res: Vec<ProcessingMatcher> = Vec::new();
        while matchers.len() > 0
            invariant
                res@.len() + matchers@.len() == orig.len(),
                matchers@ == orig.subrange(res@.len() as int, orig.len() as int),
                forall|j: int|
                    0 <= j < res@.len() ==> res@[j] == (ProcessingMatcher {
                        confirmed: orig[j].spec_auto_accept(),
                        ignored: false,
                        matcher: orig[j],
                    }),
            decreases matchers@.len(),
        {
            let m = matchers.remove(0);
            res.push(ProcessingMatcher::from(m));
            assert(matchers@ =~= orig.subrange(res@.len() as int, orig.len() as int));
        }
        let _ = res.len();
        let _ = paths.len();
        Processing { matchers: res, paths, stage: Stage::Ready }
    }

    /// Whether the indices of the stage are within the paths and matchers,
    /// as `step` needs.
    pub fn well_formed(&self) -> (res: bool)
        ensures
            res == self.wf(),
    {
        let paths = self.paths.len();
        let matchers = self.matchers.len();
        match &self.stage {
            Stage::Inspecting(i) => *i < paths,
            Stage::Rescuing(i) => *i < paths,
            Stage::Executing(i) => *i < paths,
            Stage::Reporting { index, abort: _ } => *index < paths,
            Stage::Confirming { index, matcher, candidates } => {
                *index < paths && *matcher < matchers && candidates.len() == matchers
                    && candidates[*matcher].is_some()
            },
            _ => true,
        }
    }

    /// Whether the stage waits for an event of the kind of `event`.
    pub fn accepts(&self, event: &Event) -> (res: bool)
        ensures
            res == self.spec_accepts(*event),
    {
        match (&self.stage, event) {
            (Stage::Ready, Event::Start) => true,
            (Stage::Setup, Event::Acknowledged) => true,
            (Stage::Inspecting(_), Event::Inspected(_)) => true,
            (Stage::Confirming { .. }, Event::Confirmed(_)) => true,
            (Stage::Rescuing(_), Event::Rescued(_)) => true,
            (Stage::Executing(_), Event::Executed(_)) => true,
            (Stage::Reporting { .. }, Event::Acknowledged) => true,
            _ => false,
        }
    }

    /// Whether the run is over.
    pub fn finished(&self) -> (res: bool)
        ensures
            res == (self.stage is Finished),
    {
        matches!(self.stage, Stage::Finished)
    }

    /// The renames that the matchers give for the path at `index`; `None` for
    /// the ignored matchers.
    fn candidates(&self, index: usize, facts: &PathFacts) -> (res: Vec<Option<Replacement>>)
        requires
            index < self.paths@.len(),
        ensures
            Self::valid_candidates(self.matchers@, self.paths@[index as int]@, *facts, res@),
    {
        let mut res: Vec<Option<Replacement>> = Vec::new();
        let path = self.paths[index].as_str();
        let mut j: usize = 0;
        while j < self.matchers.len()
            invariant
                j <= self.matchers@.len(),
                res@.len() == j,
                path@ == self.paths@[index as int]@,
                forall|k: int|
                    0 <= k < j ==> {
                        &&& self.matchers@[k].ignored ==> res@[k] is None
                        &&& self.matchers@[k].matcher.spec_no_outcome(path@, *facts) ==> res@[k] is None
                        &&& (res@[k] matches Some(r) ==> self.matchers@[k].matcher.spec_outcome(path@, *facts, r@))
                        &&& !self.matchers@[k].ignored ==> self.matchers@[k].matcher.spec_gives(
                            path@,
                            *facts,
                            rep_view_opt(res@[k]),
                        )
                    },
            decreases self.matchers@.len() - j,
        {
            if self.matchers[j].ignored() {
                res.push(None);
            } else {
                res.push(self.matchers[j].check(path, facts));
            }
            j = j + 1;
        }
        res
    }

    /// Looks for a rename of the path at `index`, from the matcher at `from`
    /// on, as `spec_search` says.
    fn search(&mut self, index: usize, from: usize, cands: Vec<Option<Replacement>>, found: bool) -> (cmd: Command)
        requires
            index < old(self).paths@.len(),
            cands@.len() == old(self).matchers@.len(),
            from <= old(self).matchers@.len(),
        ensures
            Self::spec_search(old(self).matchers@, old(self).paths@, index as int, from as int, cands, found, *final(self), cmd),
            final(self).wf(),
    {
        proof {
            lemma_first_candidate(self.matchers@, cands@, from as int);
        }
        let _ = self.paths.len();
        let mut j = from;
        while j < self.matchers.len()
            invariant
                from <= j <= self.matchers@.len(),
                self.matchers@ == old(self).matchers@,
                self.paths@ == old(self).paths@,
                cands@.len() == self.matchers@.len(),
                index < self.paths@.len(),
                self.paths@.len() <= usize::MAX,
                first_candidate(self.matchers@, cands@, from as int) == first_candidate(self.matchers@, cands@, j as int),
            decreases self.matchers@.len() - j,
        {
            if !self.matchers[j].ignored() && cands[j].is_some() {
                let rep = clone_candidate(&cands[j]);
                if self.matchers[j].confirmed() {
                    self.stage = Stage::Executing(index);
                    return Command::Execute(rep.unwrap());
                } else {
                    self.stage = Stage::Confirming { index, matcher: j, candidates: cands };
                    return Command::Confirm(rep.unwrap());
                }
            }
            j = j + 1;
        }
        let path = self.paths[index].as_str();
        if found {
            self.stage = Stage::Reporting { index, abort: false };
            Command::ReportErr(owned(path), Error::no_match(path))
        } else {
            self.stage = Stage::Rescuing(index);
            Command::Rescue(Error::no_match(path))
        }
    }

    /// Goes on with the path at `index`, or finishes the run.
    fn next(&mut self, index: usize) -> (cmd: Command)
        requires
            index <= old(self).paths@.len(),
        ensures
            Self::spec_next(old(self).matchers@, old(self).paths@, index as int, *final(self), cmd),
            final(self).wf(),
    {
        let _ = self.matchers.len();
        if index < self.paths.len() {
            self.stage = Stage::Inspecting(index);
            Command::Inspect(self.paths[index].clone())
        } else {
            self.stage = Stage::Finished;
            Command::Finish(Ok(()))
        }
    }

    /// One step of the run: takes the event that the stage waits for and
    /// gives the command for the caller, as `spec_step` says.
    pub fn step(&mut self, event: Event) -> (cmd: Command)
        requires
            old(self).wf(),
            old(self).spec_accepts(event),
        ensures
            Self::spec_step(*old(self), event, *final(self), cmd),
            final(self).wf(),
    {
        let ghost pre = *self;
        let mut stage = Stage::Finished;
        std::mem::swap(&mut stage, &mut self.stage);
        assert(stage == pre.stage);
        match (stage, event) {
            (Stage::Ready, Event::Start) => {
                if self.paths.len() == 0 || self.matchers.len() == 0 {
                    self.stage = Stage::Finished;
                    Command::Finish(Ok(()))
                } else {
                    self.stage = Stage::Setup;
                    Command::ReportSetup(self.paths.len())
                }
            },
            (Stage::Setup, Event::Acknowledged) => self.next(0),
            (Stage::Inspecting(i), Event::Inspected(facts)) => {
                if !facts.exists {
                    self.stage = Stage::Reporting { index: i, abort: false };
                    let path = self.paths[i].as_str();
                    Command::ReportErr(owned(path), Error::not_found(path))
                } else {
                    let cands = self.candidates(i, &facts);
                    let ghost c = cands;
                    let cmd = self.search(i, 0, cands, false);
                    assert(Self::spec_search(pre.matchers@, pre.paths@, i as int, 0, c, false, *self, cmd));
                    cmd
                }
            },
            (Stage::Confirming { index, matcher, candidates }, Event::Confirmed(conf)) => {
                let count = self.matchers.len();
                assert(matcher < count);
                match conf {
                    Confirmation::Accept => {
                        self.stage = Stage::Executing(index);
                        Command::Execute(clone_candidate(&candidates[matcher]).unwrap())
                    },
                    Confirmation::Always => {
                        let mut m = self.matchers.remove(matcher);
                        m.confirm();
                        self.matchers.insert(matcher, m);
                        assert(self.matchers@ =~= pre.matchers@.update(
                            matcher as int,
                            Self::flagged(pre.matchers@[matcher as int], true, pre.matchers@[matcher as int].ignored),
                        ));
                        self.stage = Stage::Executing(index);
                        Command::Execute(clone_candidate(&candidates[matcher]).unwrap())
                    },
                    Confirmation::Skip => {
                        self.stage = Stage::Reporting { index, abort: false };
                        let path = self.paths[index].as_str();
                        Command::ReportErr(owned(path), Error::Skip(owned(path)))
                    },
                    Confirmation::Refuse => self.search(index, matcher + 1, candidates, true),
                    Confirmation::Ignore => {
                        let mut m = self.matchers.remove(matcher);
                        m.ignore();
                        self.matchers.insert(matcher, m);
                        assert(self.matchers@ =~= pre.matchers@.update(
                            matcher as int,
                            Self::flagged(pre.matchers@[matcher as int], pre.matchers@[matcher as int].confirmed, true),
                        ));
                        self.search(index, matcher + 1, candidates, true)
                    },
                    Confirmation::Abort => {
                        self.stage = Stage::Reporting { index, abort: true };
                        let path = self.paths[index].as_str();
                        Command::ReportErr(owned(path), Error::Abort)
                    },
                    Confirmation::Replace(r) => {
                        self.stage = Stage::Executing(index);
                        Command::Execute(r)
                    },
                }
            },
            (Stage::Rescuing(i), Event::Rescued(res)) => {
                match res {
                    Ok(r) => {
                        self.stage = Stage::Executing(i);
                        Command::Execute(r)
                    },
                    Err(e) => {
                        let abort = matches!(e, Error::Abort);
                        self.stage = Stage::Reporting { index: i, abort };
                        Command::ReportErr(self.paths[i].clone(), e)
                    },
                }
            },
            (Stage::Executing(i), Event::Executed(res)) => {
                match res {
                    Ok(r) => {
                        self.stage = Stage::Reporting { index: i, abort: false };
                        Command::ReportOk(r)
                    },
                    Err(e) => {
                        let abort = matches!(e, Error::Abort);
                        self.stage = Stage::Reporting { index: i, abort };
                        Command::ReportErr(self.paths[i].clone(), e)
                    },
                }
            },
            (Stage::Reporting { index, abort }, Event::Acknowledged) => {
                if abort {
                    self.stage = Stage::Finished;
                    Command::Finish(Err(Error::Abort))
                } else {
                    let count = self.paths.len();
                    assert(index < count);
                    self.next(index + 1)
                }
            },
            (stage, _) => {
                self.stage = stage;
                Command::Finish(Ok(()))
            },
        }
    }
}

} // verus!

//! What an interactive front end keeps while it processes paths: the path at
//! hand, the choice put to the user, the actions offered and what was done.

use vstd::prelude::*;

use crate::matcher::{Matcher, PathFacts};
use crate::processing::Confirmation;
use crate::replacement::{empty_view, Replacement, ReplacementView};
use crate::text::{owned, str_equal};
use crate::ui::actions::{contains_kind, Action};

verus! {

/// The alternatives of a change as text: matcher name and rename.
pub open spec fn alts_view(alts: Seq<(String, Replacement)>) -> Seq<(Seq<char>, ReplacementView)> {
    alts.map_values(|p: (String, Replacement)| (p.0@, p.1@))
}

/// The text of an optional rename.
pub open spec fn rep_opt_view(o: Option<Replacement>) -> Option<ReplacementView> {
    match o {
        Some(r) => Some(r@),
        None => None,
    }
}

/// Whether no matcher name occurs twice among the alternatives.
pub open spec fn keys_distinct(alts: Seq<(Seq<char>, ReplacementView)>) -> bool {
    forall|i: int, j: int| 0 <= i < j < alts.len() ==> alts[i].0 != alts[j].0
}

/// The alternatives after the rename `r` of the matcher `key` is put in: it
/// takes the place of an earlier rename of that matcher, or comes last.
pub open spec fn put_alternative(
    alts: Seq<(Seq<char>, ReplacementView)>,
    key: Seq<char>,
    r: ReplacementView,
) -> Seq<(Seq<char>, ReplacementView)> {
    if exists|i: int| 0 <= i < alts.len() && alts[i].0 == key {
        alts.update(choose|i: int| 0 <= i < alts.len() && alts[i].0 == key, (key, r))
    } else {
        alts.push((key, r))
    }
}

/// The alternatives gathered from the first `n` matchers, given what each
/// gave: a rename whose new file stem differs from `stem` is kept under the
/// matcher's name.
pub open spec fn gathered(
    ms: Seq<Matcher>,
    cands: Seq<Option<ReplacementView>>,
    stem: Seq<char>,
    n: int,
) -> Seq<(Seq<char>, ReplacementView)>
    decreases n,
{
    if n <= 0 {
        Seq::empty()
    } else {
        let prev = gathered(ms, cands, stem, n - 1);
        match cands[n - 1] {
            Some(r) => if r.new_file_stem != stem {
                put_alternative(prev, ms[n - 1].spec_name(), r)
            } else {
                prev
            },
            None => prev,
        }
    }
}

/// Whether `cands` is what the matchers give for `path`, each in turn, as
/// `Matcher::check` says.
pub open spec fn checked_by(ms: Seq<Matcher>, path: Seq<char>, facts: PathFacts, cands: Seq<Option<ReplacementView>>) -> bool {
    &&& cands.len() == ms.len()
    &&& forall|i: int| #![trigger cands[i]] 0 <= i < ms.len() ==> match cands[i] {
        Some(r) => ms[i].spec_outcome(path, facts, r),
        None => true,
    }
    &&& forall|i: int| #![trigger cands[i]] 0 <= i < ms.len() ==> (ms[i].spec_no_outcome(path, facts) ==> cands[i] is None)
    &&& forall|i: int| #![trigger cands[i]] 0 <= i < ms.len() ==> ms[i].spec_gives(path, facts, cands[i])
}

/// A rename put to the user, with the renames that other matchers give for
/// the same path and the new file stem the user is typing, if any.
#[derive(Debug)]
pub struct Change {
    pub replacement: Replacement,
    pub alternatives: Vec<(String, Replacement)>,
    pub customize: Option<String>,
}

impl Change {
    /// Whether the user can start customizing: when nothing was typed yet, or
    /// when there are alternatives to start from.
    pub open spec fn spec_is_further_customizable(&self) -> bool {
        self.customize is None || self.alternatives@.len() > 0
    }

    /// A change of `replacement`, with no alternative and nothing typed.
    pub fn new(replacement: Replacement) -> (res: Change)
        ensures
            res.replacement == replacement,
            res.alternatives@.len() == 0,
            res.customize is None,
    {
        Change { replacement, alternatives: Vec::new(), customize: None }
    }

    /// Whether the user can start customizing the change.
    pub fn is_further_customizable(&self) -> (res: bool)
        ensures
            res == self.spec_is_further_customizable(),
    {
        self.customize.is_none() || self.alternatives.len() > 0
    }
}

impl Default for Change {
    fn default() -> (res: Self)
        ensures
            res.replacement@ == empty_view(),
            res.alternatives@.len() == 0,
            res.customize is None,
    {
        Change::new(Replacement::default())
    }
}

/// A copy of the alternatives.
fn clone_alternatives(alts: &Vec<(String, Replacement)>) -> (res: Vec<(String, Replacement)>)
    ensures
        res@ == alts@,
{
    let mut res: Vec<(String, Replacement)> = Vec::new();
    let mut i: usize = 0;
    while i < alts.len()
        invariant
            i <= alts@.len(),
            res@ == alts@.take(i as int),
        decreases alts@.len() - i,
    {
        let (k, r) = &alts[i];
        res.push((k.clone(), r.clone()));
        assert(res@ =~= alts@.take(i + 1));
        i = i + 1;
    }
    assert(alts@.take(alts@.len() as int) =~= alts@);
    res
}

impl Clone for Change {
    fn clone(&self) -> (res: Self)
        ensures
            res.replacement == self.replacement,
            res.alternatives@ == self.alternatives@,
            res.customize == self.customize,
    {
        Change {
            replacement: self.replacement.clone(),
            alternatives: clone_alternatives(&self.alternatives),
            customize: crate::replacement::clone_opt_string(&self.customize),
        }
    }
}

/// Where the path at hand stands.
#[derive(Debug)]
pub enum Current {
    /// Nothing processed yet.
    Idle,
    /// The path is about to be processed.
    Path(String),
    /// A matcher gave a rename, which the user is asked to confirm.
    Confirm(Change),
    /// No matcher gave a rename; the user is asked to give one.
    Rescue(Change),
    /// The user decided.
    Resolving(Confirmation),
    /// The path has been processed.
    Resolved,
}

impl Current {
    /// Whether two states are of the same kind, whatever they carry.
    pub open spec fn same_kind(&self, other: &Current) -> bool {
        match (self, other) {
            (Current::Idle, Current::Idle) => true,
            (Current::Path(_), Current::Path(_)) => true,
            (Current::Confirm(_), Current::Confirm(_)) => true,
            (Current::Rescue(_), Current::Rescue(_)) => true,
            (Current::Resolving(_), Current::Resolving(_)) => true,
            (Current::Resolved, Current::Resolved) => true,
            _ => false,
        }
    }
}

impl PartialEq for Current {
    fn eq(&self, other: &Current) -> (res: bool) {
        match (self, other) {
            (Current::Idle, Current::Idle) => true,
            (Current::Path(_), Current::Path(_)) => true,
            (Current::Confirm(_), Current::Confirm(_)) => true,
            (Current::Rescue(_), Current::Rescue(_)) => true,
            (Current::Resolving(_), Current::Resolving(_)) => true,
            (Current::Resolved, Current::Resolved) => true,
            _ => false,
        }
    }
}

impl vstd::std_specs::cmp::PartialEqSpecImpl for Current {
    open spec fn obeys_eq_spec() -> bool {
        true
    }

    open spec fn eq_spec(&self, other: &Current) -> bool {
        self.same_kind(other)
    }
}

impl Clone for Current {
    fn clone(&self) -> (res: Self)
        ensures
            res.same_kind(self),
            self matches Current::Path(p) ==> res == Current::Path(*p),
            self matches Current::Resolving(c) ==> res == Current::Resolving(*c),
    {
        match self {
            Current::Idle => Current::Idle,
            Current::Path(p) => Current::Path(p.clone()),
            Current::Confirm(c) => Current::Confirm(c.clone()),
            Current::Rescue(c) => Current::Rescue(c.clone()),
            Current::Resolving(c) => Current::Resolving(c.clone()),
            Current::Resolved => Current::Resolved,
        }
    }
}

impl Default for Current {
    fn default() -> (res: Self)
        ensures
            res is Idle,
    {
        Current::Idle
    }
}

/// What became of a processed path.
#[derive(Debug, PartialEq)]
pub enum ProcessingResult {
    /// The path was renamed.
    Success(Replacement),
    /// The path could not be processed: the path and the error.
    Failure(String, String),
}

impl ProcessingResult {
    /// The result as shown to the user: the rename, or the error.
    pub fn to_display(&self) -> (res: String)
        ensures
            self matches ProcessingResult::Failure(_, e) ==> res@ == e@,
            self matches ProcessingResult::Success(r) ==> res@ == r@.parent + seq!['/', '{'] + r@.file_stem
                + seq![' ', '=', '>', ' '] + r@.new_file_stem + seq!['}'] + match r@.extension {
                Some(ext) => seq!['.'] + ext,
                None => Seq::<char>::empty(),
            },
    {
        match self {
            ProcessingResult::Success(rep) => rep.to_display(),
            ProcessingResult::Failure(_path, error) => error.clone(),
        }
    }
}

/// The state of an interactive run.
#[derive(Debug)]
pub struct State {
    /// How many paths were processed.
    pub index: usize,
    /// How many paths there are.
    pub len: usize,
    /// Where the path at hand stands.
    pub current: Current,
    /// The actions offered for the path at hand.
    pub actions: Vec<Action>,
    /// What became of each processed path, in order.
    pub logs: Vec<ProcessingResult>,
}

impl State {
    /// Whether `post` is `pre` moved to `current`, with the actions offered
    /// for it, and nothing else changed.
    pub open spec fn moved(pre: State, post: State, current: Current) -> bool {
        &&& post.current == current
        &&& post.actions@ == Action::spec_determine_for(current)
        &&& post.index == pre.index
        &&& post.len == pre.len
        &&& post.logs@ == pre.logs@
    }

    /// Whether `post` is `pre` with the path at hand done: one more path
    /// processed, `result` logged, nothing offered.
    pub open spec fn resolved(pre: State, post: State, result: ProcessingResult) -> bool {
        &&& post.current is Resolved
        &&& post.actions@.len() == 0
        &&& post.index == pre.index + 1
        &&& post.len == pre.len
        &&& post.logs@ == pre.logs@.push(result)
    }

    /// Whether the decision `conf` can be recorded: a choice is put to the
    /// user and an action of its kind is offered.
    pub open spec fn accepts_decision(pre: State, conf: Confirmation) -> bool {
        &&& (pre.current is Confirm || pre.current is Rescue)
        &&& exists|i: int| 0 <= i < pre.actions@.len() && #[trigger] pre.actions@[i].same_kind(&Action::spec_from(conf))
    }

    /// Whether `post` is `pre` after the decision `conf` is put to it: the
    /// decision is recorded when it can be, and nothing changes otherwise.
    pub open spec fn resolving(pre: State, conf: Confirmation, post: State) -> bool {
        if State::accepts_decision(pre, conf) {
            State::moved(pre, post, Current::Resolving(conf))
        } else {
            post == pre
        }
    }

    /// Whether `post` is `pre` with `value` as what is typed for the change
    /// put to the user, the actions refreshed; nothing changes when no change
    /// is put.
    pub open spec fn typed(pre: State, value: Option<String>, post: State) -> bool {
        match pre.current {
            Current::Confirm(c) => State::moved(pre, post, Current::Confirm(Change { customize: value, ..c })),
            Current::Rescue(c) => State::moved(pre, post, Current::Rescue(Change { customize: value, ..c })),
            _ => post == pre,
        }
    }

    /// Whether the actions offered are those that make sense for the current
    /// state.
    pub open spec fn actions_in_sync(&self) -> bool {
        self.actions@ == Action::spec_determine_for(self.current)
    }

    /// The change put to the user, if any.
    pub open spec fn spec_change(&self) -> Option<Change> {
        match self.current {
            Current::Confirm(c) => Some(c),
            Current::Rescue(c) => Some(c),
            _ => None,
        }
    }

    /// A run over `len` paths, with nothing processed yet.
    pub fn new(len: usize) -> (res: State)
        ensures
            res.index == 0,
            res.len == len,
            res.current is Idle,
            res.actions@.len() == 0,
            res.logs@.len() == 0,
    {
        State { index: 0, len, current: Current::Idle, actions: Vec::new(), logs: Vec::new() }
    }

    /// Moves to the path `path`, from the start or from a processed path;
    /// does nothing otherwise.
    pub fn set_current_path(&mut self, path: String)
        ensures
            (old(self).current is Idle || old(self).current is Resolved) ==> State::moved(
                *old(self),
                *final(self),
                Current::Path(path),
            ),
            !(old(self).current is Idle || old(self).current is Resolved) ==> *final(self) == *old(self),
    {
        if matches!(self.current, Current::Idle | Current::Resolved) {
            self.current = Current::Path(path);
            self.actions = Action::determine_for(&self.current);
        }
    }

    /// Puts `replacement` to the user, from a path or from a decision that
    /// did not settle the path, with the renames that the other matchers give
    /// for the same path as alternatives (those with the same new file stem
    /// left out); does nothing otherwise.
    pub fn set_current_confirm(&mut self, replacement: Replacement, matchers: &[Matcher], facts: &PathFacts)
        ensures
            (old(self).current is Path || old(self).current is Resolving) ==> {
                &&& final(self).current matches Current::Confirm(c) && c.replacement == replacement
                    && c.customize is None && exists|cands: Seq<Option<ReplacementView>>|
                    checked_by(matchers@, replacement.spec_path(), *facts, cands) && #[trigger] alts_view(
                        c.alternatives@,
                    ) == gathered(matchers@, cands, replacement@.new_file_stem, matchers@.len() as int)
                &&& State::moved(*old(self), *final(self), final(self).current)
            },
            !(old(self).current is Path || old(self).current is Resolving) ==> *final(self) == *old(self),
    {
        if !matches!(self.current, Current::Path(_) | Current::Resolving(_)) {
            return;
        }
        let path = replacement.path();
        let mut alternatives: Vec<(String, Replacement)> = Vec::new();
        let ghost mut cands: Seq<Option<ReplacementView>> = Seq::empty();
        let mut i: usize = 0;
        while i < matchers.len()
            invariant
                i <= matchers@.len(),
                path@ == replacement.spec_path(),
                cands.len() == i,
                forall|k: int| #![trigger cands[k]] 0 <= k < i ==> match cands[k] {
                    Some(r) => matchers@[k].spec_outcome(path@, *facts, r),
                    None => true,
                },
                forall|k: int| #![trigger cands[k]] 0 <= k < i ==> (matchers@[k].spec_no_outcome(path@, *facts) ==> cands[k] is None),
                forall|k: int| #![trigger cands[k]] 0 <= k < i ==> matchers@[k].spec_gives(path@, *facts, cands[k]),
                alts_view(alternatives@) == gathered(matchers@, cands, replacement@.new_file_stem, i as int),
                keys_distinct(alts_view(alternatives@)),
            decreases matchers@.len() - i,
        {
            let matcher = &matchers[i];
            let found = matcher.check(path.as_str(), facts);
            let ghost prev = cands;
            let ghost found_view = rep_opt_view(found);
            proof {
                cands = cands.push(found_view);
                assert forall|n: int| 0 <= n <= i implies gathered(matchers@, cands, replacement@.new_file_stem, n)
                    == gathered(matchers@, prev, replacement@.new_file_stem, n) by {
                    lemma_gathered_prefix(matchers@, cands, prev, replacement@.new_file_stem, n);
                }
            }
            match found {
                Some(rep) => {
                    if !str_equal(rep.new_file_stem.as_str(), replacement.new_file_stem.as_str()) {
                        put(&mut alternatives, matcher.name(), rep);
                    }
                },
                None => {},
            }
            i = i + 1;
        }
        proof {
            assert(checked_by(matchers@, replacement.spec_path(), *facts, cands));
        }
        let change = Change { replacement, alternatives, customize: None };
        self.current = Current::Confirm(change);
        self.actions = Action::determine_for(&self.current);
    }

    /// Asks the user to rescue a path that no matcher renamed, starting from
    /// `replacement`; does nothing unless the state is at a path.
    pub fn set_current_rescue(&mut self, replacement: Replacement)
        ensures
            old(self).current is Path ==> {
                &&& final(self).current matches Current::Rescue(c) && c.replacement == replacement
                    && c.alternatives@.len() == 0 && c.customize is None
                &&& State::moved(*old(self), *final(self), final(self).current)
            },
            !(old(self).current is Path) ==> *final(self) == *old(self),
    {
        if !matches!(self.current, Current::Path(_)) {
            return;
        }
        self.current = Current::Rescue(Change::new(replacement));
        self.actions = Action::determine_for(&self.current);
    }

    /// Records the user's decision `conf`, when a choice is put to the user
    /// and an action of its kind is offered; returns whether it was recorded.
    pub fn set_current_resolving(&mut self, conf: Confirmation) -> (res: bool)
        ensures
            res == State::accepts_decision(*old(self), conf),
            State::resolving(*old(self), conf, *final(self)),
    {
        if matches!(self.current, Current::Confirm(_) | Current::Rescue(_)) && contains_kind(
            &self.actions,
            &Action::from(&conf),
        ) {
            self.current = Current::Resolving(conf);
            self.actions = Action::determine_for(&self.current);
            return true;
        }
        false
    }

    /// Marks the path done, renamed by `replacement`; does nothing unless a
    /// decision was recorded.
    pub fn set_current_success(&mut self, replacement: Replacement)
        requires
            old(self).current is Resolving ==> old(self).index < usize::MAX,
        ensures
            old(self).current is Resolving ==> State::resolved(
                *old(self),
                *final(self),
                ProcessingResult::Success(replacement),
            ),
            !(old(self).current is Resolving) ==> *final(self) == *old(self),
    {
        if !matches!(self.current, Current::Resolving(_)) {
            return;
        }
        self.index = self.index + 1;
        self.logs.push(ProcessingResult::Success(replacement));
        self.current = Current::Resolved;
        self.actions = Action::determine_for(&self.current);
    }

    /// Marks the path `path` done, failed with `error`; does nothing unless a
    /// decision was recorded.
    pub fn set_current_failure(&mut self, path: String, error: String)
        requires
            old(self).current is Resolving ==> old(self).index < usize::MAX,
        ensures
            old(self).current is Resolving ==> State::resolved(
                *old(self),
                *final(self),
                ProcessingResult::Failure(path, error),
            ),
            !(old(self).current is Resolving) ==> *final(self) == *old(self),
    {
        if !matches!(self.current, Current::Resolving(_)) {
            return;
        }
        self.index = self.index + 1;
        self.logs.push(ProcessingResult::Failure(path, error));
        self.current = Current::Resolved;
        self.actions = Action::determine_for(&self.current);
    }

    /// Sets the new file stem being typed for the change put to the user, and
    /// refreshes the actions; does nothing when no change is put.
    pub fn customize(&mut self, string: String)
        ensures
            State::typed(*old(self), Some(string), *final(self)),
    {
        self.set_customize(Some(string));
    }

    /// Drops the new file stem being typed for the change put to the user,
    /// and refreshes the actions; does nothing when no change is put.
    pub fn cancel_customize(&mut self)
        ensures
            State::typed(*old(self), None, *final(self)),
    {
        self.set_customize(None);
    }

    /// Sets what is being typed for the change put to the user.
    fn set_customize(&mut self, value: Option<String>)
        ensures
            State::typed(*old(self), value, *final(self)),
    {
        let mut current = Current::Idle;
        std::mem::swap(&mut current, &mut self.current);
        match current {
            Current::Confirm(change) => {
                self.current = Current::Confirm(Change { customize: value, ..change });
                self.actions = Action::determine_for(&self.current);
            },
            Current::Rescue(change) => {
                self.current = Current::Rescue(Change { customize: value, ..change });
                self.actions = Action::determine_for(&self.current);
            },
            other => {
                self.current = other;
            },
        }
    }

    /// The rename with the typed new file stem, when a change is put to the
    /// user and something was typed.
    pub fn customized_replacement(&self) -> (res: Option<Replacement>)
        ensures
            match self.spec_change() {
                Some(c) => match c.customize {
                    Some(stem) => res matches Some(r) && r.parent == c.replacement.parent
                        && r.file_stem == c.replacement.file_stem && r.extension == c.replacement.extension
                        && r.new_file_stem == stem,
                    None => res is None,
                },
                None => res is None,
            },
    {
        match self.change() {
            Some(change) => match &change.customize {
                Some(value) => Some(change.replacement.clone().new_file_stem(value.clone())),
                None => None,
            },
            None => None,
        }
    }

    /// The change put to the user, if any.
    pub fn change(&self) -> (res: Option<&Change>)
        ensures
            match res {
                Some(c) => self.spec_change() == Some(*c),
                None => self.spec_change() is None,
            },
    {
        match &self.current {
            Current::Confirm(change) => Some(change),
            Current::Rescue(change) => Some(change),
            _ => None,
        }
    }

    /// How many paths were processed.
    pub fn index(&self) -> (res: usize)
        ensures
            res == self.index,
    {
        self.index
    }

    /// How many paths there are.
    pub fn len(&self) -> (res: usize)
        ensures
            res == self.len,
    {
        self.len
    }

    /// Where the path at hand stands.
    pub fn current(&self) -> (res: &Current)
        ensures
            *res == self.current,
    {
        &self.current
    }

    /// The actions offered.
    pub fn actions(&self) -> (res: &[Action])
        ensures
            res@ == self.actions@,
    {
        self.actions.as_slice()
    }

    /// What became of the processed paths.
    pub fn logs(&self) -> (res: &[ProcessingResult])
        ensures
            res@ == self.logs@,
    {
        self.logs.as_slice()
    }
}

impl Default for State {
    fn default() -> (res: Self)
        ensures
            res.index == 0,
            res.len == 0,
            res.current is Idle,
            res.actions@.len() == 0,
            res.logs@.len() == 0,
    {
        State::new(0)
    }
}

/// `gathered` over the first `n` matchers depends only on what the first `n`
/// gave.
proof fn lemma_gathered_prefix(
    ms: Seq<Matcher>,
    a: Seq<Option<ReplacementView>>,
    b: Seq<Option<ReplacementView>>,
    stem: Seq<char>,
    n: int,
)
    requires
        0 <= n <= a.len(),
        n <= b.len(),
        forall|k: int| 0 <= k < n ==> a[k] == b[k],
    ensures
        gathered(ms, a, stem, n) == gathered(ms, b, stem, n),
    decreases n,
{
    if n > 0 {
        lemma_gathered_prefix(ms, a, b, stem, n - 1);
    }
}

/// Puts the rename `rep` of the matcher `key` among the alternatives.
fn put(alts: &mut Vec<(String, Replacement)>, key: &str, rep: Replacement)
    requires
        keys_distinct(alts_view(old(alts)@)),
    ensures
        alts_view(final(alts)@) == put_alternative(alts_view(old(alts)@), key@, rep@),
        keys_distinct(alts_view(final(alts)@)),
{
    let ghost view = alts_view(alts@);
    let mut i: usize = 0;
    while i < alts.len()
        invariant
            i <= alts@.len(),
            view == alts_view(alts@),
            view == alts_view(old(alts)@),
            keys_distinct(view),
            forall|k: int| 0 <= k < i ==> view[k].0 != key@,
        decreases alts@.len() - i,
    {
        if str_equal(alts[i].0.as_str(), key) {
            proof {
                assert(view[i as int].0 == key@);
                let j = choose|j: int| 0 <= j < view.len() && view[j].0 == key@;
                assert(j == i as int);
                assert(put_alternative(view, key@, rep@) == view.update(i as int, (key@, rep@)));
            }
            let ghost rep_view = rep@;
            alts.set(i, (owned(key), rep));
            proof {
                assert(alts_view(alts@) =~= view.update(i as int, (key@, rep_view)));
            }
            return;
        }
        i = i + 1;
    }
    alts.push((owned(key), rep));
    proof {
        assert(alts_view(alts@) =~= view.push((key@, rep@)));
    }
}

} // verus!

//! What the user can do about the path being processed.

use vstd::prelude::*;

use crate::processing::Confirmation;
use crate::replacement::{empty_view, Replacement};
use crate::ui::state::{Change, Current};

verus! {

/// Something the user can choose.
#[derive(Debug)]
pub enum Action {
    Accept,
    Always,
    Skip,
    Refuse,
    Ignore,
    Abort,
    /// Use this rename.
    Replace(Replacement),
    /// Edit the new file stem, starting from this rename.
    Customize(Replacement),
    ViewAlternatives,
    Cancel,
    /// Confirm the edited rename.
    ConfirmCustomization,
}

impl Action {
    /// Whether two actions are of the same kind, whatever rename they carry.
    pub open spec fn same_kind(&self, other: &Action) -> bool {
        match (self, other) {
            (Action::Accept, Action::Accept) => true,
            (Action::Always, Action::Always) => true,
            (Action::Skip, Action::Skip) => true,
            (Action::Refuse, Action::Refuse) => true,
            (Action::Ignore, Action::Ignore) => true,
            (Action::Abort, Action::Abort) => true,
            (Action::Replace(_), Action::Replace(_)) => true,
            (Action::Customize(_), Action::Customize(_)) => true,
            (Action::ViewAlternatives, Action::ViewAlternatives) => true,
            (Action::Cancel, Action::Cancel) => true,
            (Action::ConfirmCustomization, Action::ConfirmCustomization) => true,
            _ => false,
        }
    }

    /// Whether two actions are of the same kind.
    pub fn same_kind_as(&self, other: &Action) -> (res: bool)
        ensures
            res == self.same_kind(other),
    {
        match (self, other) {
            (Action::Accept, Action::Accept) => true,
            (Action::Always, Action::Always) => true,
            (Action::Skip, Action::Skip) => true,
            (Action::Refuse, Action::Refuse) => true,
            (Action::Ignore, Action::Ignore) => true,
            (Action::Abort, Action::Abort) => true,
            (Action::Replace(_), Action::Replace(_)) => true,
            (Action::Customize(_), Action::Customize(_)) => true,
            (Action::ViewAlternatives, Action::ViewAlternatives) => true,
            (Action::Cancel, Action::Cancel) => true,
            (Action::ConfirmCustomization, Action::ConfirmCustomization) => true,
            _ => false,
        }
    }

    /// The action that gives a confirmation.
    pub open spec fn spec_from(conf: Confirmation) -> Action {
        match conf {
            Confirmation::Accept => Action::Accept,
            Confirmation::Always => Action::Always,
            Confirmation::Replace(rep) => Action::Replace(rep),
            Confirmation::Skip => Action::Skip,
            Confirmation::Refuse => Action::Refuse,
            Confirmation::Ignore => Action::Ignore,
            Confirmation::Abort => Action::Abort,
        }
    }

    /// The action that gives the confirmation `conf`.
    pub fn from(conf: &Confirmation) -> (res: Action)
        ensures
            res == Self::spec_from(*conf),
    {
        match conf {
            Confirmation::Accept => Action::Accept,
            Confirmation::Always => Action::Always,
            Confirmation::Replace(rep) => Action::Replace(rep.clone()),
            Confirmation::Skip => Action::Skip,
            Confirmation::Refuse => Action::Refuse,
            Confirmation::Ignore => Action::Ignore,
            Confirmation::Abort => Action::Abort,
        }
    }

    /// The confirmation that the action gives, if it gives one.
    pub open spec fn spec_try_into(self) -> Result<Confirmation, ()> {
        match self {
            Action::Accept => Ok(Confirmation::Accept),
            Action::Always => Ok(Confirmation::Always),
            Action::Replace(rep) => Ok(Confirmation::Replace(rep)),
            Action::Skip => Ok(Confirmation::Skip),
            Action::Refuse => Ok(Confirmation::Refuse),
            Action::Ignore => Ok(Confirmation::Ignore),
            Action::Abort => Ok(Confirmation::Abort),
            _ => Err(()),
        }
    }

    /// The confirmation that the action gives: the actions that only steer the
    /// dialog (customizing, viewing alternatives, cancelling) give none.
    pub fn try_into(self) -> (res: Result<Confirmation, ()>)
        ensures
            res == self.spec_try_into(),
    {
        match self {
            Action::Accept => Ok(Confirmation::Accept),
            Action::Always => Ok(Confirmation::Always),
            Action::Replace(rep) => Ok(Confirmation::Replace(rep)),
            Action::Skip => Ok(Confirmation::Skip),
            Action::Refuse => Ok(Confirmation::Refuse),
            Action::Ignore => Ok(Confirmation::Ignore),
            Action::Abort => Ok(Confirmation::Abort),
            Action::Customize(_) => Err(()),
            Action::ViewAlternatives => Err(()),
            Action::Cancel => Err(()),
            Action::ConfirmCustomization => Err(()),
        }
    }

    /// The actions for a change: those given first, then customizing if the
    /// change can be customized further, then the given rename and those given
    /// last.
    pub open spec fn with_change(first: Seq<Action>, change: Change, last: Seq<Action>) -> Seq<Action> {
        first + (if change.spec_is_further_customizable() {
            seq![Action::Customize(change.replacement)]
        } else {
            Seq::empty()
        }) + seq![Action::Replace(change.replacement)] + last
    }

    /// The actions that make sense for what is being processed: a match to
    /// confirm can be accepted (once or always), have its alternatives viewed
    /// when there are any, be customized, and be skipped, refused, ignored or
    /// aborted; a path without match can be customized, skipped, refused or
    /// aborted; nothing can be done otherwise.
    pub open spec fn spec_determine_for(current: Current) -> Seq<Action> {
        match current {
            Current::Confirm(change) => Self::with_change(
                seq![Action::Accept, Action::Always] + if change.alternatives@.len() > 0 {
                    seq![Action::ViewAlternatives]
                } else {
                    Seq::empty()
                },
                change,
                seq![Action::Skip, Action::Refuse, Action::Ignore, Action::Abort],
            ),
            Current::Rescue(change) => Self::with_change(
                Seq::empty(),
                change,
                seq![Action::Skip, Action::Refuse, Action::Abort],
            ),
            _ => Seq::empty(),
        }
    }

    /// The actions that make sense for `current`.
    pub fn determine_for(current: &Current) -> (res: Vec<Action>)
        ensures
            res@ == Self::spec_determine_for(*current),
    {
        match current {
            Current::Confirm(change) => {
                let mut actions = vec![Action::Accept, Action::Always];
                if change.alternatives.len() > 0 {
                    actions.push(Action::ViewAlternatives);
                }
                let ghost first = actions@;
                if change.is_further_customizable() {
                    actions.push(Action::Customize(change.replacement.clone()));
                }
                actions.push(Action::Replace(change.replacement.clone()));
                actions.push(Action::Skip);
                actions.push(Action::Refuse);
                actions.push(Action::Ignore);
                actions.push(Action::Abort);
                assert(actions@ =~= Self::spec_determine_for(*current));
                actions
            },
            Current::Rescue(change) => {
                let mut actions: Vec<Action> = Vec::new();
                if change.is_further_customizable() {
                    actions.push(Action::Customize(change.replacement.clone()));
                }
                actions.push(Action::Replace(change.replacement.clone()));
                actions.push(Action::Skip);
                actions.push(Action::Refuse);
                actions.push(Action::Abort);
                assert(actions@ =~= Self::spec_determine_for(*current));
                actions
            },
            _ => {
                let actions: Vec<Action> = Vec::new();
                assert(actions@ =~= Self::spec_determine_for(*current));
                actions
            },
        }
    }
}

impl PartialEq for Action {
    fn eq(&self, other: &Action) -> (res: bool) {
        self.same_kind_as(other)
    }
}

impl vstd::std_specs::cmp::PartialEqSpecImpl for Action {
    open spec fn obeys_eq_spec() -> bool {
        true
    }

    open spec fn eq_spec(&self, other: &Action) -> bool {
        self.same_kind(other)
    }
}

impl Clone for Action {
    fn clone(&self) -> (res: Self)
        ensures
            res == *self,
    {
        match self {
            Action::Accept => Action::Accept,
            Action::Always => Action::Always,
            Action::Skip => Action::Skip,
            Action::Refuse => Action::Refuse,
            Action::Ignore => Action::Ignore,
            Action::Abort => Action::Abort,
            Action::Replace(r) => Action::Replace(r.clone()),
            Action::Customize(r) => Action::Customize(r.clone()),
            Action::ViewAlternatives => Action::ViewAlternatives,
            Action::Cancel => Action::Cancel,
            Action::ConfirmCustomization => Action::ConfirmCustomization,
        }
    }
}

/// Whether `res` is what `f` gives, kept when it is something, for the
/// actions of `actions` in order.
pub open spec fn filter_mapped<T, F: Fn(&Action) -> Option<T>>(f: F, actions: Seq<Action>, res: Seq<T>) -> bool
    decreases actions.len(),
{
    if actions.len() == 0 {
        res.len() == 0
    } else {
        exists|o: Option<T>|
            #[trigger] call_ensures(f, (&actions.last(),), o) && match o {
                Some(t) => res.len() > 0 && res.last() == t && filter_mapped(f, actions.drop_last(), res.drop_last()),
                None => filter_mapped(f, actions.drop_last(), res),
            }
    }
}

/// A list of actions.
#[derive(Debug)]
pub struct Actions {
    pub actions: Vec<Action>,
}

impl Actions {
    /// The actions that make sense for `current`.
    pub fn from(current: &Current) -> (res: Actions)
        ensures
            res.actions@ == Action::spec_determine_for(*current),
    {
        Actions { actions: Action::determine_for(current) }
    }

    /// No action.
    pub fn empty() -> (res: Actions)
        ensures
            res.actions@.len() == 0,
    {
        Actions { actions: Vec::new() }
    }

    /// Every kind of action a user is shown, once each, in the order in which
    /// they are offered; the renames they carry are empty.
    pub fn all() -> (res: Actions)
        ensures
            res.actions@.len() == 10,
            res.actions@[0] is Accept,
            res.actions@[1] is Always,
            res.actions@[2] matches Action::Customize(r) && r@ == empty_view(),
            res.actions@[3] matches Action::Replace(r) && r@ == empty_view(),
            res.actions@[4] is Skip,
            res.actions@[5] is Refuse,
            res.actions@[6] is Ignore,
            res.actions@[7] is Abort,
            res.actions@[8] is ViewAlternatives,
            res.actions@[9] is Cancel,
    {
        let actions = vec![
            Action::Accept,
            Action::Always,
            Action::Customize(Replacement::default()),
            Action::Replace(Replacement::default()),
            Action::Skip,
            Action::Refuse,
            Action::Ignore,
            Action::Abort,
            Action::ViewAlternatives,
            Action::Cancel,
        ];
        Actions { actions }
    }

    /// The first action for which `func` says true.
    pub fn find<F: Fn(&&Action) -> bool>(&self, func: F) -> (res: Option<Action>)
        requires
            forall|i: int| 0 <= i < self.actions@.len() ==> call_requires(func, (&&self.actions@[i],)),
        ensures
            match res {
                Some(a) => exists|i: int|
                    0 <= i < self.actions@.len() && a == self.actions@[i] && call_ensures(func, (&&self.actions@[i],), true)
                        && forall|k: int| 0 <= k < i ==> #[trigger] call_ensures(func, (&&self.actions@[k],), false),
                None => forall|k: int| 0 <= k < self.actions@.len() ==> #[trigger] call_ensures(func, (&&self.actions@[k],), false),
            },
    {
        let mut i: usize = 0;
        while i < self.actions.len()
            invariant
                i <= self.actions@.len(),
                forall|i: int| 0 <= i < self.actions@.len() ==> call_requires(func, (&&self.actions@[i],)),
                forall|k: int| 0 <= k < i ==> #[trigger] call_ensures(func, (&&self.actions@[k],), false),
            decreases self.actions@.len() - i,
        {
            let action = &self.actions[i];
            if func(&action) {
                return Some(action.clone());
            }
            i = i + 1;
        }
        None
    }

    /// What `func` gives for each action, when it gives something.
    pub fn shortcuts_using<F: Fn(&Action) -> Option<T>, T>(&self, func: F) -> (res: Vec<T>)
        requires
            forall|i: int| 0 <= i < self.actions@.len() ==> call_requires(func, (&self.actions@[i],)),
        ensures
            filter_mapped(func, self.actions@, res@),
    {
        let mut res: Vec<T> = Vec::new();
        let mut i: usize = 0;
        assert(self.actions@.take(0) =~= Seq::<Action>::empty());
        while i < self.actions.len()
            invariant
                i <= self.actions@.len(),
                forall|i: int| 0 <= i < self.actions@.len() ==> call_requires(func, (&self.actions@[i],)),
                filter_mapped(func, self.actions@.take(i as int), res@),
            decreases self.actions@.len() - i,
        {
            let o = func(&self.actions[i]);
            let ghost prev = res@;
            assert(self.actions@.take(i + 1).drop_last() =~= self.actions@.take(i as int));
            assert(self.actions@.take(i + 1).last() == self.actions@[i as int]);
            match o {
                Some(t) => {
                    res.push(t);
                    assert(res@.drop_last() =~= prev);
                },
                None => {},
            }
            assert(call_ensures(func, (&self.actions@.take(i + 1).last(),), o));
            i = i + 1;
        }
        assert(self.actions@.take(self.actions@.len() as int) =~= self.actions@);
        res
    }

    /// Whether an action of the kind of `needle` is in the list.
    pub fn contains(&self, needle: Action) -> (res: bool)
        ensures
            res == exists|i: int| 0 <= i < self.actions@.len() && self.actions@[i].same_kind(&needle),
    {
        contains_kind(&self.actions, &needle)
    }

    /// The actions in order.
    pub fn iter(&self) -> (res: std::slice::Iter<'_, Action>)
        ensures
            vstd::std_specs::slice::into_iter_elts(res) == self.actions@,
    {
        self.actions.iter()
    }
}

/// Whether an action of the kind of `needle` is in `actions`.
pub fn contains_kind(actions: &Vec<Action>, needle: &Action) -> (res: bool)
    ensures
        res == exists|i: int| 0 <= i < actions@.len() && actions@[i].same_kind(needle),
{
    let mut i: usize = 0;
    while i < actions.len()
        invariant
            i <= actions@.len(),
            forall|k: int| 0 <= k < i ==> !actions@[k].same_kind(needle),
        decreases actions@.len() - i,
    {
        if actions[i].same_kind_as(needle) {
            return true;
        }
        i = i + 1;
    }
    false
}

/// The key that chooses an action in the text interface, if any.
pub open spec fn spec_shortcut_for(action: Action) -> Option<char> {
    match action {
        Action::Accept => Some('Y'),
        Action::Always => Some('A'),
        Action::Customize(_) => Some('C'),
        Action::Skip => Some('S'),
        Action::Refuse => Some('R'),
        Action::Ignore => Some('I'),
        Action::Abort => Some('Q'),
        Action::Replace(_) => None,
        Action::ViewAlternatives => Some('V'),
        Action::Cancel => None,
        Action::ConfirmCustomization => None,
    }
}

/// The key that chooses `action`, if any.
pub fn shortcut_for(action: &Action) -> (res: Option<char>)
    ensures
        res == spec_shortcut_for(*action),
{
    match action {
        Action::Accept => Some('Y'),
        Action::Always => Some('A'),
        Action::Customize(_) => Some('C'),
        Action::Skip => Some('S'),
        Action::Refuse => Some('R'),
        Action::Ignore => Some('I'),
        Action::Abort => Some('Q'),
        Action::Replace(_) => None,
        Action::ViewAlternatives => Some('V'),
        Action::Cancel => None,
        Action::ConfirmCustomization => None,
    }
}

} // verus!

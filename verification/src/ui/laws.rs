//! What holds of the actions offered to the user and of the changes put to
//! the user, whatever the state.

use vstd::prelude::*;

use crate::matcher::Matcher;
use crate::processing::Confirmation;
use crate::replacement::ReplacementView;
use crate::ui::actions::Action;
use crate::ui::state::{gathered, keys_distinct, put_alternative, Change, Current, ProcessingResult, State};

verus! {

/// Whether an action of the kind of `a` is among `actions`.
pub open spec fn offers(actions: Seq<Action>, a: Action) -> bool {
    exists|i: int| 0 <= i < actions.len() && #[trigger] actions[i].same_kind(&a)
}

/// Actions are offered exactly while a choice is put to the user: a rename
/// to confirm, or a path to rescue.
pub proof fn law_actions_only_while_choosing(current: Current)
    ensures
        (Action::spec_determine_for(current).len() > 0) == (current is Confirm || current is Rescue),
{
}

/// Whatever the choice put to the user, the user can give another rename,
/// skip the path, refuse, or abort.
pub proof fn law_choice_can_always_be_declined(change: Change)
    ensures
        forall|a: Action|
            (a is Replace || a is Skip || a is Refuse || a is Abort) ==> offers(
                Action::spec_determine_for(Current::Confirm(change)),
                a,
            ) && offers(Action::spec_determine_for(Current::Rescue(change)), a),
{
    let cs = Action::spec_determine_for(Current::Confirm(change));
    let rs = Action::spec_determine_for(Current::Rescue(change));
    assert forall|a: Action| (a is Replace || a is Skip || a is Refuse || a is Abort) implies offers(cs, a) && offers(
        rs,
        a,
    ) by {
        let k: int = if change.spec_is_further_customizable() {
            1
        } else {
            0
        };
        let c0: int = if change.alternatives@.len() > 0 {
            3
        } else {
            2
        };
        if a is Replace {
            assert(cs[c0 + k].same_kind(&a));
            assert(rs[k].same_kind(&a));
        } else if a is Skip {
            assert(cs[c0 + k + 1].same_kind(&a));
            assert(rs[k + 1].same_kind(&a));
        } else if a is Refuse {
            assert(cs[c0 + k + 2].same_kind(&a));
            assert(rs[k + 2].same_kind(&a));
        } else {
            assert(cs[c0 + k + 4].same_kind(&a));
            assert(rs[k + 3].same_kind(&a));
        }
    }
}

/// A path that no matcher renamed cannot be accepted, accepted always or
/// have its matcher ignored, since there is no rename and no matcher to
/// speak of; nor are there alternatives to view.
pub proof fn law_rescue_offers_no_match_actions(change: Change)
    ensures
        !offers(Action::spec_determine_for(Current::Rescue(change)), Action::Accept),
        !offers(Action::spec_determine_for(Current::Rescue(change)), Action::Always),
        !offers(Action::spec_determine_for(Current::Rescue(change)), Action::Ignore),
        !offers(Action::spec_determine_for(Current::Rescue(change)), Action::ViewAlternatives),
{
}

/// Customizing is offered exactly when the change can be customized
/// further: nothing typed yet, or alternatives to start from.
pub proof fn law_customize_offered_iff_customizable(change: Change, a: Action)
    requires
        a is Customize,
    ensures
        offers(Action::spec_determine_for(Current::Confirm(change)), a) == change.spec_is_further_customizable(),
        offers(Action::spec_determine_for(Current::Rescue(change)), a) == change.spec_is_further_customizable(),
{
    let cs = Action::spec_determine_for(Current::Confirm(change));
    let rs = Action::spec_determine_for(Current::Rescue(change));
    if change.spec_is_further_customizable() {
        let c0: int = if change.alternatives@.len() > 0 {
            3
        } else {
            2
        };
        assert(cs[c0].same_kind(&a));
        assert(rs[0].same_kind(&a));
    }
}

/// Viewing the alternatives is offered for a rename to confirm exactly when
/// there are alternatives.
pub proof fn law_alternatives_offered_iff_any(change: Change)
    ensures
        offers(Action::spec_determine_for(Current::Confirm(change)), Action::ViewAlternatives) == (
        change.alternatives@.len() > 0),
{
    let cs = Action::spec_determine_for(Current::Confirm(change));
    if change.alternatives@.len() > 0 {
        assert(cs[2].same_kind(&Action::ViewAlternatives));
    }
}

/// Turning a decision into the action that gives it, and back, gives the
/// decision again.
pub proof fn law_confirmation_round_trip(conf: Confirmation)
    ensures
        Action::spec_from(conf).spec_try_into() == Ok::<Confirmation, ()>(conf),
{
}

/// With the actions in step with the state, a path to rescue refuses the
/// decisions that only make sense for a rename found by a matcher.
pub proof fn law_rescue_refuses_accept(s: State, conf: Confirmation)
    requires
        s.current is Rescue,
        s.actions_in_sync(),
        conf is Accept || conf is Always || conf is Ignore,
    ensures
        !offers(s.actions@, Action::spec_from(conf)),
{
}

/// The alternatives gathered for a change never repeat a matcher name, and
/// never hold a rename to the new file stem of the change itself.
pub proof fn law_alternatives_are_new(
    ms: Seq<Matcher>,
    cands: Seq<Option<ReplacementView>>,
    stem: Seq<char>,
    n: int,
)
    requires
        0 <= n <= cands.len(),
        n <= ms.len(),
    ensures
        keys_distinct(gathered(ms, cands, stem, n)),
        forall|i: int|
            0 <= i < gathered(ms, cands, stem, n).len() ==> #[trigger] gathered(ms, cands, stem, n)[i].1.new_file_stem
                != stem,
    decreases n,
{
    if n > 0 {
        law_alternatives_are_new(ms, cands, stem, n - 1);
        let prev = gathered(ms, cands, stem, n - 1);
        match cands[n - 1] {
            Some(r) => if r.new_file_stem != stem {
                let key = ms[n - 1].spec_name();
                let next = put_alternative(prev, key, r);
                if exists|i: int| 0 <= i < prev.len() && prev[i].0 == key {
                    let j = choose|i: int| 0 <= i < prev.len() && prev[i].0 == key;
                    assert(next == prev.update(j, (key, r)));
                    assert forall|a: int, b: int| 0 <= a < b < next.len() implies next[a].0 != next[b].0 by {
                        assert(next[a].0 == prev[a].0);
                        assert(next[b].0 == prev[b].0);
                    }
                } else {
                    assert(next == prev.push((key, r)));
                    assert forall|a: int, b: int| 0 <= a < b < next.len() implies next[a].0 != next[b].0 by {
                        if b == prev.len() {
                            assert(next[a] == prev[a]);
                        } else {
                            assert(next[a] == prev[a]);
                            assert(next[b] == prev[b]);
                        }
                    }
                }
            },
            None => {},
        }
    }
}

/// Cancelling a customization undoes it: typing a new file stem for a
/// change that had none typed, then cancelling, gives back the state, with
/// the same actions offered.
pub proof fn law_cancel_undoes_customize(pre: State, typed: String, mid: State, post: State)
    requires
        pre.actions_in_sync(),
        pre.spec_change() matches Some(c) && c.customize is None,
        State::typed(pre, Some(typed), mid),
        State::typed(mid, None, post),
    ensures
        post.current == pre.current,
        post.actions@ == pre.actions@,
        post.index == pre.index,
        post.len == pre.len,
        post.logs@ == pre.logs@,
{
}

/// Whether `post` follows `pre` by one of the state's operations: a move to
/// a new place (a path, a choice, a decision, what is typed), a path marked
/// done with its result, or nothing changed.
pub open spec fn one_operation(pre: State, post: State) -> bool {
    ||| exists|c: Current| #[trigger] State::moved(pre, post, c)
    ||| exists|r: ProcessingResult| #[trigger] State::resolved(pre, post, r)
    ||| post == pre
}

/// The log holds one result for each processed path: an operation keeps
/// the length of the log equal to the index of the path at hand.
pub proof fn law_log_follows_index(pre: State, post: State)
    requires
        pre.logs@.len() == pre.index,
        one_operation(pre, post),
    ensures
        post.logs@.len() == post.index,
{
}

/// The operation taken at `k` in a sequence of states.
pub open spec fn operation_at(states: Seq<State>, k: int) -> bool {
    one_operation(states[k], states[k + 1])
}

/// In every state reached from a fresh state by the state's operations, the
/// log holds exactly one result per processed path.
pub proof fn law_log_follows_index_through_run(states: Seq<State>)
    requires
        states.len() > 0,
        states[0].index == 0,
        states[0].logs@.len() == 0,
        forall|k: int| 0 <= k < states.len() - 1 ==> #[trigger] operation_at(states, k),
    ensures
        forall|k: int| 0 <= k < states.len() ==> #[trigger] states[k].logs@.len() == states[k].index,
{
    assert forall|k: int| 0 <= k < states.len() implies #[trigger] states[k].logs@.len() == states[k].index by {
        lemma_log_follows_index_upto(states, k);
    }
}

/// The log follows the index up to the state at `m`.
proof fn lemma_log_follows_index_upto(states: Seq<State>, m: int)
    requires
        0 <= m < states.len(),
        states[0].index == 0,
        states[0].logs@.len() == 0,
        forall|k: int| 0 <= k < states.len() - 1 ==> #[trigger] operation_at(states, k),
    ensures
        states[m].logs@.len() == states[m].index,
    decreases m,
{
    if m > 0 {
        lemma_log_follows_index_upto(states, m - 1);
        assert(operation_at(states, m - 1));
        assert(states[m - 1 + 1] == states[m]);
        law_log_follows_index(states[m - 1], states[m]);
    }
}

} // verus!

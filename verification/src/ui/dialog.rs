//! The dialog of the terminal front end, as decisions on the state.
//!
//! The front end shows what `dialog_for` or `execute` gives, asks the user,
//! and hands the answer back (`choose_alternative`, `typed`, `proceed`, or the
//! action picked from the main dialog); it goes on until the user decided.

use vstd::prelude::*;

use crate::processing::{Confirmation, Error};
use crate::replacement::{opt_view, resolved_path, spec_resolved_path, Replacement, ReplacementView};
use crate::text::owned;
use crate::ui::actions::Action;
use crate::ui::state::{Change, Current, State};

verus! {

/// What the terminal front end asks next, or the decision reached.
#[derive(Debug)]
pub enum Dialog {
    /// Ask which of these actions to take; each comes with its prompt.
    Main(Vec<(&'static str, Action)>),
    /// Ask which alternative to take (matcher name and rename), or none.
    Alternatives(Vec<(String, Replacement)>),
    /// Ask for a new file stem, starting from this text.
    Input(String),
    /// Ask whether to proceed with this rename: yes, no, or customize it.
    Proceed(Replacement),
    /// The user decided.
    Decided(Confirmation),
}

/// The prompt for an action in the main dialog; none for the actions that
/// the dialog does not list. Refusing is only listed for a rename to
/// confirm.
pub open spec fn spec_prompt_for(action: Action, current: Current) -> Option<Seq<char>> {
    match action {
        Action::Accept => Some("Yes, accept the rename and continue"@),
        Action::Always => Some("Always accept similar rename and continue"@),
        Action::Customize(_) => Some("Customize the rename"@),
        Action::ViewAlternatives => Some("View other possibilities"@),
        Action::Replace(_) => None,
        Action::Skip => Some("Skip renaming this file"@),
        Action::Refuse => if current is Confirm {
            Some("Refuse the rename and continue"@)
        } else {
            None
        },
        Action::Ignore => Some("Ignore all similar rename and continue"@),
        Action::Abort => Some("Quit now, refusing this rename"@),
        Action::Cancel => None,
        Action::ConfirmCustomization => None,
    }
}

/// The text of an optional prompt.
pub open spec fn prompt_view(p: Option<&'static str>) -> Option<Seq<char>> {
    match p {
        Some(s) => Some(s@),
        None => None,
    }
}

/// The prompt for `action` in the main dialog, while `current` stands.
pub fn prompt_for(action: &Action, current: &Current) -> (res: Option<&'static str>)
    ensures
        prompt_view(res) == spec_prompt_for(*action, *current),
{
    match action {
        Action::Accept => Some("Yes, accept the rename and continue"),
        Action::Always => Some("Always accept similar rename and continue"),
        Action::Customize(_) => Some("Customize the rename"),
        Action::ViewAlternatives => Some("View other possibilities"),
        Action::Replace(_) => None,
        Action::Skip => Some("Skip renaming this file"),
        Action::Refuse => if matches!(current, Current::Confirm(_)) {
            Some("Refuse the rename and continue")
        } else {
            None
        },
        Action::Ignore => Some("Ignore all similar rename and continue"),
        Action::Abort => Some("Quit now, refusing this rename"),
        Action::Cancel => None,
        Action::ConfirmCustomization => None,
    }
}

/// The options of the main dialog: the actions that have a prompt, in
/// order, each with its prompt.
pub open spec fn spec_options(actions: Seq<Action>, current: Current) -> Seq<(Seq<char>, Action)>
    decreases actions.len(),
{
    if actions.len() == 0 {
        Seq::empty()
    } else {
        let prev = spec_options(actions.drop_last(), current);
        match spec_prompt_for(actions.last(), current) {
            Some(p) => prev.push((p, actions.last())),
            None => prev,
        }
    }
}

/// The options as text.
pub open spec fn options_view(options: Seq<(&'static str, Action)>) -> Seq<(Seq<char>, Action)> {
    options.map_values(|o: (&'static str, Action)| (o.0@, o.1))
}

/// The options of the main dialog for the actions offered in `state`.
pub fn main_options(state: &State) -> (res: Vec<(&'static str, Action)>)
    ensures
        options_view(res@) == spec_options(state.actions@, state.current),
{
    let mut res: Vec<(&'static str, Action)> = Vec::new();
    let mut i: usize = 0;
    while i < state.actions.len()
        invariant
            i <= state.actions@.len(),
            options_view(res@) == spec_options(state.actions@.take(i as int), state.current),
        decreases state.actions@.len() - i,
    {
        let action = &state.actions[i];
        let ghost prev = res@;
        assert(state.actions@.take(i + 1).drop_last() =~= state.actions@.take(i as int));
        assert(state.actions@.take(i + 1).last() == state.actions@[i as int]);
        match prompt_for(action, &state.current) {
            Some(p) => {
                res.push((p, action.clone()));
                assert(options_view(res@) =~= options_view(prev).push((p@, *action)));
            },
            None => {},
        }
        i = i + 1;
    }
    assert(state.actions@.take(state.actions@.len() as int) =~= state.actions@);
    res
}

/// What to ask while no action is pending: the main dialog for a choice put
/// to the user, or the decision once it is recorded.
pub fn dialog_for(state: &State) -> (res: Dialog)
    requires
        state.current is Confirm || state.current is Rescue || state.current is Resolving,
    ensures
        state.current matches Current::Resolving(conf) ==> res == Dialog::Decided(conf),
        !(state.current is Resolving) ==> (res matches Dialog::Main(options) && options_view(options@)
            == spec_options(state.actions@, state.current)),
{
    match &state.current {
        Current::Resolving(conf) => Dialog::Decided(conf.clone()),
        _ => Dialog::Main(main_options(state)),
    }
}

/// The rename with the typed new file stem, when a change is put to the
/// user and something was typed.
pub open spec fn customized(state: State) -> Option<ReplacementView> {
    match state.spec_change() {
        Some(c) => match c.customize {
            Some(stem) => Some(ReplacementView { new_file_stem: stem@, ..c.replacement@ }),
            None => None,
        },
        None => None,
    }
}

/// Carries out the action `action` that the user picked: a decision is
/// recorded when the state accepts it, cancelling drops what was typed,
/// customizing starts from the new file stem of the rename and asks for the
/// text, confirming a customization asks whether to proceed, and viewing
/// alternatives lists them. Gives what to ask next, if anything.
pub fn execute(state: &mut State, action: Action) -> (res: Option<Dialog>)
    ensures
        match action {
            Action::Replace(r) => State::resolving(*old(state), Confirmation::Replace(r), *final(state))
                && res is None,
            Action::Cancel => State::typed(*old(state), None, *final(state)) && res is None,
            Action::Customize(r) => State::typed(*old(state), Some(r.new_file_stem), *final(state)) && match old(
                state,
            ).spec_change() {
                Some(_) => res matches Some(Dialog::Input(t)) && t@ == r.new_file_stem@,
                None => res is None,
            },
            Action::ViewAlternatives => *final(state) == *old(state) && match old(state).current {
                Current::Confirm(c) => res matches Some(Dialog::Alternatives(alts)) && alts@ == c.alternatives@,
                _ => res is None,
            },
            Action::ConfirmCustomization => *final(state) == *old(state) && match customized(*old(state)) {
                Some(r) => res matches Some(Dialog::Proceed(p)) && p@ == r,
                None => res is None,
            },
            _ => State::resolving(*old(state), action.spec_try_into()->Ok_0, *final(state)) && res is None,
        },
{
    match action {
        Action::ViewAlternatives => match &state.current {
            Current::Confirm(change) => Some(Dialog::Alternatives(change.clone().alternatives)),
            _ => None,
        },
        Action::Customize(replacement) => {
            state.customize(replacement.new_file_stem);
            match state.customized_replacement() {
                Some(r) => Some(Dialog::Input(r.new_file_stem)),
                None => None,
            }
        },
        Action::Cancel => {
            state.cancel_customize();
            None
        },
        Action::ConfirmCustomization => match state.customized_replacement() {
            Some(r) => Some(Dialog::Proceed(r)),
            None => None,
        },
        Action::Replace(replacement) => {
            state.set_current_resolving(Confirmation::Replace(replacement));
            None
        },
        Action::Accept => {
            state.set_current_resolving(Confirmation::Accept);
            None
        },
        Action::Always => {
            state.set_current_resolving(Confirmation::Always);
            None
        },
        Action::Skip => {
            state.set_current_resolving(Confirmation::Skip);
            None
        },
        Action::Refuse => {
            state.set_current_resolving(Confirmation::Refuse);
            None
        },
        Action::Ignore => {
            state.set_current_resolving(Confirmation::Ignore);
            None
        },
        Action::Abort => {
            state.set_current_resolving(Confirmation::Abort);
            None
        },
    }
}

/// The user picked the alternative at `selection` (past the end: none).
/// Its new file stem becomes what is typed, and the customization is to be
/// confirmed; nothing happens without a rename to confirm or a pick.
pub fn choose_alternative(state: &mut State, selection: usize) -> (res: Option<Action>)
    ensures
        match old(state).current {
            Current::Confirm(c) => if selection < c.alternatives@.len() {
                State::typed(*old(state), Some(c.alternatives@[selection as int].1.new_file_stem), *final(state))
                    && res == Some(Action::ConfirmCustomization)
            } else {
                *final(state) == *old(state) && res is None
            },
            _ => *final(state) == *old(state) && res is None,
        },
{
    let stem = match &state.current {
        Current::Confirm(change) => {
            if selection < change.alternatives.len() {
                change.alternatives[selection].1.new_file_stem.clone()
            } else {
                return None;
            }
        },
        _ => {
            return None;
        },
    };
    state.customize(stem);
    Some(Action::ConfirmCustomization)
}

/// The user typed the new file stem `new_file_stem`: it becomes what is
/// typed, and the customization is to be confirmed.
pub fn typed(state: &mut State, new_file_stem: String) -> (res: Action)
    ensures
        State::typed(*old(state), Some(new_file_stem), *final(state)),
        res is ConfirmCustomization,
{
    state.customize(new_file_stem);
    Action::ConfirmCustomization
}

/// The answer to whether to proceed with `replacement`: yes (`0`) uses it,
/// no (`1`) cancels the customization, customize (`2`) edits it again.
pub fn proceed(replacement: Replacement, selection: usize) -> (res: Option<Action>)
    ensures
        selection == 0 ==> res == Some(Action::Replace(replacement)),
        selection == 1 ==> res == Some(Action::Cancel),
        selection == 2 ==> res == Some(Action::Customize(replacement)),
        selection > 2 ==> res is None,
{
    if selection == 0 {
        Some(Action::Replace(replacement))
    } else if selection == 1 {
        Some(Action::Cancel)
    } else if selection == 2 {
        Some(Action::Customize(replacement))
    } else {
        None
    }
}

/// The rename a rescue starts from: the path of an error of no match, in
/// the directory `resolved_parent` found on disk for it when there is one,
/// split for a rename, when it can be split.
pub fn rescue_start(error: &Error, resolved_parent: &Option<String>) -> (res: Option<Replacement>)
    ensures
        match *error {
            Error::NoMatch(path) => match Replacement::spec_try_from(
                spec_resolved_path(path@, opt_view(*resolved_parent)),
            ) {
                Ok(v) => res matches Some(r) && r@ == v,
                Err(_) => res is None,
            },
            _ => res is None,
        },
{
    match error {
        Error::NoMatch(path) => {
            let on_disk = resolved_path(path.as_str(), resolved_parent);
            match Replacement::try_from(on_disk.as_str()) {
                Ok(rep) => Some(rep),
                Err(_) => None,
            }
        },
        _ => None,
    }
}

/// What a rescue gives once the user decided on `error`: aborting stops the
/// run, another rename is used, and anything else leaves the error. The flag
/// says whether the decision was one that a rescue offers.
pub fn rescue_outcome(conf: Confirmation, error: Error) -> (res: (Result<Replacement, Error>, bool))
    ensures
        res.0 == (match conf {
            Confirmation::Abort => Err::<Replacement, Error>(Error::Abort),
            Confirmation::Replace(r) => Ok(r),
            _ => Err(error),
        }),
        res.1 == (conf is Abort || conf is Replace || conf is Skip || conf is Refuse),
{
    match conf {
        Confirmation::Abort => (Err(Error::Abort), true),
        Confirmation::Replace(replacement) => (Ok(replacement), true),
        Confirmation::Skip | Confirmation::Refuse => (Err(error), true),
        _ => (Err(error), false),
    }
}

} // verus!

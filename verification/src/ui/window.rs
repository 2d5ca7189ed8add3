//! The decisions of the window front end: how it reacts to what the
//! processing thread tells it, to the user's actions and to keys, and what it
//! asks its runtime to do in turn. Drawing the window and the channels to the
//! processing thread belong to the runtime.

use vstd::prelude::*;

use crate::matcher::{Matcher, PathFacts};
use crate::processing::Confirmation;
use crate::replacement::{opt_view, spec_file_name, Replacement, ReplacementView};
use crate::ui::actions::{Action, Actions};
use crate::text::{concat2, concat3, owned};
use crate::ui::state::{alts_view, checked_by, gathered, Current, State};

verus! {

/// What the processing thread tells the window.
#[derive(Debug)]
pub enum ProcessingEvent {
    /// The thread waits for the matchers and the paths.
    Initialization,
    /// The thread is ready to receive decisions.
    Ready,
    /// This path is being processed.
    Processing(String),
    /// A path was renamed so.
    ProcessingOk(Replacement),
    /// Processing this path failed with this message.
    ProcessingErr(String, String),
    /// This rename is put to the user; the facts are those of its path.
    Confirm(Replacement, PathFacts),
    /// No matcher renamed this path; the user is asked to rescue it.
    Rescue(Replacement),
    /// The run is over.
    Finished,
    /// The run was aborted.
    Aborted,
}

/// What the window handles.
#[derive(Debug)]
pub enum Message {
    /// Nothing to do.
    Idle,
    /// The processing thread said something.
    Processing(ProcessingEvent),
    /// The user picked an action.
    Action(Action),
    /// Show or hide the log.
    ToggleLog,
    /// Show or hide the layout.
    ToggleDebug,
    /// Close the window.
    Quit,
    /// A key that may choose one of the actions offered.
    MaybeShortcut(char),
}

/// What the window asks its runtime to do.
#[derive(Debug)]
pub enum Task {
    /// Nothing.
    Nothing,
    /// Send the matchers and the paths to the processing thread.
    SendInitialization,
    /// Send this decision to the processing thread.
    SendConfirmation(Confirmation),
    /// Put the focus on the input of the new file stem.
    FocusCustomize,
    /// Close the window.
    Close,
}

/// Where the processing thread stands, as the window knows it.
#[derive(Debug, Clone, Copy, PartialEq, Eq, Structural)]
pub enum ProcessingState {
    /// Not ready for decisions yet.
    Booting,
    /// Ready for decisions.
    Processing,
    /// Over.
    Finished,
}

/// The window: the run it shows and what it shows of it.
#[derive(Debug)]
pub struct Window {
    pub matchers: Vec<Matcher>,
    pub paths: Vec<String>,
    pub processing_state: ProcessingState,
    pub state: State,
    /// Whether the log is shown.
    pub log: bool,
    /// Whether the layout is shown.
    pub debug: bool,
}

/// The key that chooses an action in the window, if any.
pub open spec fn spec_window_shortcut_for(action: Action) -> Option<char> {
    match action {
        Action::Accept => Some('y'),
        Action::Always => Some('a'),
        Action::Customize(_) => Some('c'),
        Action::Skip => Some('s'),
        Action::Refuse => Some('r'),
        Action::Ignore => Some('i'),
        Action::Abort => Some('q'),
        _ => None,
    }
}

/// The key that chooses `action` in the window, if any.
pub fn window_shortcut_for(action: &Action) -> (res: Option<char>)
    ensures
        res == spec_window_shortcut_for(*action),
{
    match action {
        Action::Accept => Some('y'),
        Action::Always => Some('a'),
        Action::Customize(_) => Some('c'),
        Action::Skip => Some('s'),
        Action::Refuse => Some('r'),
        Action::Ignore => Some('i'),
        Action::Abort => Some('q'),
        Action::ViewAlternatives => None,
        Action::Replace(_) => None,
        Action::Cancel => None,
        Action::ConfirmCustomization => None,
    }
}

/// The label of the button of an action.
pub fn action_label(action: &Action) -> (res: &'static str)
    ensures
        res@ == (match *action {
            Action::Accept => "Yes"@,
            Action::Always => "Always"@,
            Action::Customize(_) => "Custom"@,
            Action::Skip => "Skip"@,
            Action::Refuse => "Refuse"@,
            Action::Ignore => "Ignore"@,
            Action::Abort => "Quit"@,
            Action::Replace(_) => "Use"@,
            Action::ConfirmCustomization => "Confirm"@,
            Action::ViewAlternatives => "Alternatives"@,
            Action::Cancel => "Cancel"@,
        }),
{
    match action {
        Action::Accept => "Yes",
        Action::Always => "Always",
        Action::Customize(_) => "Custom",
        Action::Skip => "Skip",
        Action::Refuse => "Refuse",
        Action::Ignore => "Ignore",
        Action::Abort => "Quit",
        Action::Replace(_) => "Use",
        Action::ConfirmCustomization => "Confirm",
        Action::ViewAlternatives => "Alternatives",
        Action::Cancel => "Cancel",
    }
}

/// Whether some action of `Actions::all` has the window key `key`.
pub open spec fn some_action_has_key(key: char) -> bool {
    key == 'y' || key == 'a' || key == 'c' || key == 's' || key == 'r' || key == 'i' || key == 'q'
}

/// The message of a key pressed with the modifiers given: control-q quits
/// whatever the context; without modifiers, `l` toggles the log, `d` the
/// layout, and the key of an action may choose it.
pub fn handle_hotkey(key: char, control: bool, no_modifiers: bool) -> (res: Option<Message>)
    ensures
        control && key == 'q' ==> res == Some(Message::Quit),
        !(control && key == 'q') && no_modifiers ==> res == (if key == 'l' {
            Some(Message::ToggleLog)
        } else if key == 'd' {
            Some(Message::ToggleDebug)
        } else if some_action_has_key(key) {
            Some(Message::MaybeShortcut(key))
        } else {
            None
        }),
        !(control && key == 'q') && !no_modifiers ==> res is None,
{
    if control && key == 'q' {
        return Some(Message::Quit);
    }
    if no_modifiers {
        if key == 'l' {
            return Some(Message::ToggleLog);
        }
        if key == 'd' {
            return Some(Message::ToggleDebug);
        }
        let all = Actions::all();
        let mut i: usize = 0;
        while i < all.actions.len()
            invariant
                i <= all.actions@.len(),
                all.actions@.len() == 10,
                all.actions@[0] is Accept,
                all.actions@[1] is Always,
                all.actions@[2] is Customize,
                all.actions@[3] is Replace,
                all.actions@[4] is Skip,
                all.actions@[5] is Refuse,
                all.actions@[6] is Ignore,
                all.actions@[7] is Abort,
                all.actions@[8] is ViewAlternatives,
                all.actions@[9] is Cancel,
                forall|k: int| 0 <= k < i ==> spec_window_shortcut_for(all.actions@[k]) != Some(key),
                !(control && key == 'q'),
                no_modifiers,
                key != 'l',
                key != 'd',
            decreases all.actions@.len() - i,
        {
            if window_shortcut_for(&all.actions[i]) == Some(key) {
                return Some(Message::MaybeShortcut(key));
            }
            i = i + 1;
        }
        assert(spec_window_shortcut_for(all.actions@[0]) != Some(key));
        assert(spec_window_shortcut_for(all.actions@[1]) != Some(key));
        assert(spec_window_shortcut_for(all.actions@[2]) != Some(key));
        assert(spec_window_shortcut_for(all.actions@[4]) != Some(key));
        assert(spec_window_shortcut_for(all.actions@[5]) != Some(key));
        assert(spec_window_shortcut_for(all.actions@[6]) != Some(key));
        assert(spec_window_shortcut_for(all.actions@[7]) != Some(key));
    }
    None
}

/// The actions that get a button: those offered, but for giving a rename,
/// viewing alternatives (they are listed) and cancelling.
pub open spec fn spec_buttons(actions: Seq<Action>) -> Seq<Action>
    decreases actions.len(),
{
    if actions.len() == 0 {
        Seq::empty()
    } else {
        let prev = spec_buttons(actions.drop_last());
        let a = actions.last();
        if a is Replace || a is ViewAlternatives || a is Cancel {
            prev
        } else {
            prev.push(a)
        }
    }
}

/// The actions of `state` that get a button, in order.
pub fn buttons(state: &State) -> (res: Vec<Action>)
    ensures
        res@ == spec_buttons(state.actions@),
{
    let mut res: Vec<Action> = Vec::new();
    let mut i: usize = 0;
    while i < state.actions.len()
        invariant
            i <= state.actions@.len(),
            res@ == spec_buttons(state.actions@.take(i as int)),
        decreases state.actions@.len() - i,
    {
        let action = &state.actions[i];
        assert(state.actions@.take(i + 1).drop_last() =~= state.actions@.take(i as int));
        assert(state.actions@.take(i + 1).last() == state.actions@[i as int]);
        match action {
            Action::Replace(_) | Action::ViewAlternatives | Action::Cancel => {},
            _ => {
                res.push(action.clone());
            },
        }
        i = i + 1;
    }
    assert(state.actions@.take(state.actions@.len() as int) =~= state.actions@);
    res
}

/// The lines that tell the user where the run stands: what is processed,
/// the rename put to the user, or the path that no matcher renamed.
pub open spec fn spec_message_lines(current: Current) -> Seq<Seq<char>> {
    match current {
        Current::Idle => seq!["Booting"@],
        Current::Path(path) => seq!["Processing "@ + path@],
        Current::Confirm(c) => seq![
            "In "@ + c.replacement.parent@,
            "Replace "@ + spec_file_name(c.replacement.file_stem@, opt_view(c.replacement.extension))
                + " with:"@,
            spec_file_name(c.replacement.new_file_stem@, opt_view(c.replacement.extension)),
        ],
        Current::Rescue(c) => seq![
            "In "@ + c.replacement.parent@,
            "No match was found for "@ + spec_file_name(c.replacement.file_stem@, opt_view(c.replacement.extension)),
        ],
        _ => seq!["Processing..."@],
    }
}

/// The lines of the message shown for `state`, in order.
pub fn message_lines(state: &State) -> (res: Vec<String>)
    ensures
        res@.len() == spec_message_lines(state.current).len(),
        forall|i: int| 0 <= i < res@.len() ==> #[trigger] res@[i]@ == spec_message_lines(state.current)[i],
{
    match &state.current {
        Current::Idle => vec![owned("Booting")],
        Current::Path(path) => vec![concat2("Processing ", path.as_str())],
        Current::Confirm(change) => {
            let rep = &change.replacement;
            let a = concat2("In ", rep.parent.as_str());
            let b = concat3("Replace ", rep.file_name().as_str(), " with:");
            let c = rep.new_file_name();
            vec![a, b, c]
        },
        Current::Rescue(change) => {
            let rep = &change.replacement;
            let a = concat2("In ", rep.parent.as_str());
            let b = concat2("No match was found for ", rep.file_name().as_str());
            vec![a, b]
        },
        _ => vec![owned("Processing...")],
    }
}

/// The alternatives listed under a rename to confirm, in order, each to be
/// shown with a button that takes it and one that customizes from it; none
/// otherwise.
pub fn alternative_rows(state: &State) -> (res: Vec<Replacement>)
    ensures
        match state.current {
            Current::Confirm(c) => res@.len() == c.alternatives@.len() && forall|i: int|
                0 <= i < res@.len() ==> #[trigger] res@[i] == c.alternatives@[i].1,
            _ => res@.len() == 0,
        },
{
    let mut res: Vec<Replacement> = Vec::new();
    if let Current::Confirm(change) = &state.current {
        let mut i: usize = 0;
        while i < change.alternatives.len()
            invariant
                i <= change.alternatives@.len(),
                res@.len() == i,
                forall|k: int| 0 <= k < i ==> #[trigger] res@[k] == change.alternatives@[k].1,
            decreases change.alternatives@.len() - i,
        {
            res.push(change.alternatives[i].1.clone());
            i = i + 1;
        }
    }
    res
}

impl Window {
    /// Whether `post` is `pre` with the state of the run replaced, the rest
    /// kept.
    pub open spec fn with_state(pre: Window, post: Window) -> bool {
        &&& post.matchers@ == pre.matchers@
        &&& post.paths@ == pre.paths@
        &&& post.processing_state == pre.processing_state
        &&& post.log == pre.log
        &&& post.debug == pre.debug
    }

    /// Whether the window can handle an action: all but viewing the
    /// alternatives and cancelling, which the window does not offer.
    pub open spec fn handles(action: Action) -> bool {
        !(action is ViewAlternatives || action is Cancel)
    }

    /// Whether the window can handle a message: any but an action it does not
    /// offer, and, while a decision is recorded and every path counted, not
    /// the end of a path.
    pub open spec fn handles_message(&self, message: Message) -> bool {
        match message {
            Message::Action(a) => Self::handles(a),
            Message::Processing(ProcessingEvent::ProcessingOk(_)) => self.state.current is Resolving
                ==> self.state.index < usize::MAX,
            Message::Processing(ProcessingEvent::ProcessingErr(_, _)) => self.state.current is Resolving
                ==> self.state.index < usize::MAX,
            _ => true,
        }
    }

    /// A window for a run over `paths` with `matchers`, nothing processed yet.
    pub fn new(matchers: Vec<Matcher>, paths: Vec<String>) -> (res: Window)
        ensures
            res.matchers == matchers,
            res.paths == paths,
            res.processing_state is Booting,
            res.state.index == 0,
            res.state.len == paths@.len(),
            res.state.current is Idle,
            res.state.actions@.len() == 0,
            res.state.logs@.len() == 0,
            !res.log,
            !res.debug,
    {
        let len = paths.len();
        Window {
            matchers,
            paths,
            processing_state: ProcessingState::Booting,
            state: State::new(len),
            log: false,
            debug: false,
        }
    }

    /// The title of the window.
    pub fn title(&self) -> (res: &'static str)
        ensures
            res@ == "Prefix by date"@,
    {
        "Prefix by date"
    }

    /// Records the decision `conf`, when the state accepts it, and sends it
    /// when the processing thread is ready for it.
    pub fn send_confirmation(&mut self, conf: Confirmation) -> (task: Task)
        ensures
            State::resolving(old(self).state, conf, final(self).state),
            Window::with_state(*old(self), *final(self)),
            Window::sent(*old(self), conf, task),
    {
        let accepted = self.state.set_current_resolving(conf.clone());
        if !accepted {
            return Task::Nothing;
        }
        match self.processing_state {
            ProcessingState::Processing => Task::SendConfirmation(conf),
            _ => Task::Nothing,
        }
    }

    /// Whether `post` and `task` are what carrying out `action` gives from
    /// `pre`.
    pub open spec fn executed(pre: Window, action: Action, post: Window, task: Task) -> bool {
        &&& (Window::with_state(pre, post))
        &&& (action matches Action::Customize(r) ==> State::typed(pre.state, Some(r.new_file_stem), post.state)
                && task is FocusCustomize)
        &&& (action is ConfirmCustomization ==> match pre.state.spec_change() {
                Some(c) => match c.customize {
                    Some(stem) => exists|r: Replacement| {
                        &&& r.parent == c.replacement.parent
                        &&& r.file_stem == c.replacement.file_stem
                        &&& r.extension == c.replacement.extension
                        &&& r.new_file_stem == stem
                        &&& State::resolving(pre.state, Confirmation::Replace(r), post.state)
                        &&& #[trigger] Window::sent(pre, Confirmation::Replace(r), task)
                    },
                    None => post.state == pre.state && task is Nothing,
                },
                None => post.state == pre.state && task is Nothing,
            })
        &&& (action matches Action::Replace(r) ==> State::resolving(pre.state, Confirmation::Replace(r), post.state)
                && Window::sent(pre, Confirmation::Replace(r), task))
        &&& (action.spec_try_into() is Ok && !(action is Replace) ==> State::resolving(
                pre.state,
                action.spec_try_into()->Ok_0,
                post.state,
            ) && Window::sent(pre, action.spec_try_into()->Ok_0, task))
    }

    /// Carries out the action `action` that the user picked: typing a new
    /// file stem focuses its input, confirming the typed stem sends it as the
    /// rename, and a decision is recorded and sent.
    pub fn execute(&mut self, action: Action) -> (task: Task)
        requires
            Window::handles(action),
        ensures
            Window::executed(*old(self), action, *final(self), task),
    {
        match action {
            Action::Customize(replacement) => {
                self.state.customize(replacement.new_file_stem);
                Task::FocusCustomize
            },
            Action::ConfirmCustomization => match self.state.customized_replacement() {
                Some(replacement) => {
                    let ghost pre = *self;
                    let ghost r = replacement;
                    let task = self.send_confirmation(Confirmation::Replace(replacement));
                    assert(Window::sent(pre, Confirmation::Replace(r), task));
                    task
                },
                None => Task::Nothing,
            },
            Action::Accept => self.send_confirmation(Confirmation::Accept),
            Action::Always => self.send_confirmation(Confirmation::Always),
            Action::Skip => self.send_confirmation(Confirmation::Skip),
            Action::Refuse => self.send_confirmation(Confirmation::Refuse),
            Action::Ignore => self.send_confirmation(Confirmation::Ignore),
            Action::Abort => self.send_confirmation(Confirmation::Abort),
            Action::Replace(replacement) => self.send_confirmation(Confirmation::Replace(replacement)),
            Action::ViewAlternatives | Action::Cancel => {
                proof {
                    assert(false);
                }
                Task::Nothing
            },
        }
    }

    /// Whether `task` is what sending the decision `conf` gives from `pre`.
    pub open spec fn sent(pre: Window, conf: Confirmation, task: Task) -> bool {
        task == (if State::accepts_decision(pre.state, conf) && pre.processing_state is Processing {
            Task::SendConfirmation(conf)
        } else {
            Task::Nothing
        })
    }

    /// Whether `post` and `task` are what following `event` gives from `pre`.
    pub open spec fn followed(pre: Window, event: ProcessingEvent, post: Window, task: Task) -> bool {
        &&& (post.matchers@ == pre.matchers@)
        &&& (post.paths@ == pre.paths@)
        &&& (post.log == pre.log)
        &&& (post.debug == pre.debug)
        &&& (match event {
                ProcessingEvent::Initialization => task is SendInitialization && post.state == pre.state
                    && post.processing_state == pre.processing_state,
                ProcessingEvent::Ready => task is Nothing && post.state == pre.state
                    && post.processing_state is Processing,
                ProcessingEvent::Finished => task is Close && post.state == pre.state
                    && post.processing_state is Finished,
                ProcessingEvent::Aborted => task is Close && post.state == pre.state
                    && post.processing_state is Finished,
                _ => task is Nothing && post.processing_state == pre.processing_state,
            })
        &&& (event matches ProcessingEvent::Processing(path) ==> (if pre.state.current is Idle
                || pre.state.current is Resolved {
                State::moved(pre.state, post.state, Current::Path(path))
            } else {
                post.state == pre.state
            }))
        &&& (event matches ProcessingEvent::ProcessingOk(r) ==> (if pre.state.current is Resolving {
                State::resolved(pre.state, post.state, crate::ui::state::ProcessingResult::Success(r))
            } else {
                post.state == pre.state
            }))
        &&& (event matches ProcessingEvent::ProcessingErr(p, e) ==> (if pre.state.current is Resolving {
                State::resolved(
                    pre.state,
                    post.state,
                    crate::ui::state::ProcessingResult::Failure(p, e),
                )
            } else {
                post.state == pre.state
            }))
        &&& (event matches ProcessingEvent::Confirm(r, facts) ==> (if pre.state.current is Path
                || pre.state.current is Resolving {
                &&& post.state.current matches Current::Confirm(c) && c.replacement == r && c.customize is None
                    && exists|cands: Seq<Option<ReplacementView>>|
                    checked_by(pre.matchers@, r.spec_path(), facts, cands) && #[trigger] alts_view(c.alternatives@)
                        == gathered(pre.matchers@, cands, r@.new_file_stem, pre.matchers@.len() as int)
                &&& State::moved(pre.state, post.state, post.state.current)
            } else {
                post.state == pre.state
            }))
        &&& (event matches ProcessingEvent::Rescue(r) ==> (if pre.state.current is Path {
                post.state.current matches Current::Rescue(c) && c.replacement == r
                    && c.alternatives@.len() == 0 && c.customize is None && State::moved(
                    pre.state,
                    post.state,
                    post.state.current,
                )
            } else {
                post.state == pre.state
            }))
    }

    /// Follows what the processing thread said: the state of the run moves
    /// along, the thread gets the matchers and the paths when it waits for
    /// them, and the window closes when the run is over.
    pub fn update_processing_event(&mut self, event: ProcessingEvent) -> (task: Task)
        requires
            old(self).handles_message(Message::Processing(event)),
        ensures
            Window::followed(*old(self), event, *final(self), task),
    {
        match event {
            ProcessingEvent::Initialization => Task::SendInitialization,
            ProcessingEvent::Ready => {
                self.processing_state = ProcessingState::Processing;
                Task::Nothing
            },
            ProcessingEvent::Processing(path) => {
                self.state.set_current_path(path);
                Task::Nothing
            },
            ProcessingEvent::ProcessingOk(replacement) => {
                self.state.set_current_success(replacement);
                Task::Nothing
            },
            ProcessingEvent::ProcessingErr(path, error) => {
                self.state.set_current_failure(path, error);
                Task::Nothing
            },
            ProcessingEvent::Confirm(replacement, facts) => {
                self.state.set_current_confirm(replacement, self.matchers.as_slice(), &facts);
                Task::Nothing
            },
            ProcessingEvent::Rescue(replacement) => {
                self.state.set_current_rescue(replacement);
                Task::Nothing
            },
            ProcessingEvent::Finished | ProcessingEvent::Aborted => {
                self.processing_state = ProcessingState::Finished;
                Task::Close
            },
        }
    }

    /// The first action offered that the key `key` chooses, if any.
    pub fn shortcut_action(&self, key: char) -> (res: Option<Action>)
        ensures
            match res {
                Some(a) => exists|i: int|
                    0 <= i < self.state.actions@.len() && a == self.state.actions@[i]
                        && spec_window_shortcut_for(a) == Some(key) && forall|k: int|
                        0 <= k < i ==> #[trigger] spec_window_shortcut_for(self.state.actions@[k]) != Some(key),
                None => forall|k: int|
                    0 <= k < self.state.actions@.len() ==> #[trigger] spec_window_shortcut_for(self.state.actions@[k])
                        != Some(key),
            },
    {
        let mut i: usize = 0;
        while i < self.state.actions.len()
            invariant
                i <= self.state.actions@.len(),
                forall|k: int| 0 <= k < i ==> #[trigger] spec_window_shortcut_for(self.state.actions@[k]) != Some(key),
            decreases self.state.actions@.len() - i,
        {
            if window_shortcut_for(&self.state.actions[i]) == Some(key) {
                return Some(self.state.actions[i].clone());
            }
            i = i + 1;
        }
        None
    }

    /// Handles a message: what the processing thread said, an action, a
    /// toggle, closing, or a key, which carries out the first action offered
    /// that it chooses.
    pub fn update(&mut self, message: Message) -> (task: Task)
        requires
            old(self).handles_message(message),
        ensures
            message is Idle ==> task is Nothing && *final(self) == *old(self),
            message is Quit ==> task is Close && *final(self) == *old(self),
            message is ToggleLog ==> task is Nothing && final(self).log == !old(self).log && final(self).debug
                == old(self).debug && final(self).state == old(self).state,
            message is ToggleDebug ==> task is Nothing && final(self).debug == !old(self).debug && final(self).log
                == old(self).log && final(self).state == old(self).state,
            message matches Message::MaybeShortcut(key) ==> (if exists|i: int|
                0 <= i < old(self).state.actions@.len() && #[trigger] spec_window_shortcut_for(
                    old(self).state.actions@[i],
                ) == Some(key) {
                exists|i: int|
                    0 <= i < old(self).state.actions@.len() && spec_window_shortcut_for(old(self).state.actions@[i])
                        == Some(key) && (forall|k: int|
                        0 <= k < i ==> #[trigger] spec_window_shortcut_for(old(self).state.actions@[k]) != Some(key))
                        && #[trigger] Window::executed(*old(self), old(self).state.actions@[i], *final(self), task)
            } else {
                task is Nothing && *final(self) == *old(self)
            }),
            message matches Message::Action(a) ==> Window::executed(*old(self), a, *final(self), task),
            message matches Message::Processing(e) ==> Window::followed(*old(self), e, *final(self), task),
    {
        match message {
            Message::Idle => Task::Nothing,
            Message::Processing(event) => self.update_processing_event(event),
            Message::ToggleLog => {
                self.log = !self.log;
                Task::Nothing
            },
            Message::ToggleDebug => {
                self.debug = !self.debug;
                Task::Nothing
            },
            Message::Action(action) => self.execute(action),
            Message::Quit => Task::Close,
            Message::MaybeShortcut(key) => match self.shortcut_action(key) {
                Some(action) => self.execute(action),
                None => Task::Nothing,
            },
        }
    }
}

} // verus!

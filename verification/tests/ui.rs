use prefix_by_date::application::Interactive;
use prefix_by_date::matcher::{Matcher, PathFacts, Pattern};
use prefix_by_date::processing::{Command, Event, Processing};
use prefix_by_date::processing::{Communication, Confirmation, Error};
use prefix_by_date::replacement::Replacement;
use prefix_by_date::ui::actions::Action;
use prefix_by_date::ui::dialog::{
    choose_alternative, dialog_for, execute, main_options, prompt_for, proceed, rescue_outcome, rescue_start,
    typed, Dialog,
};
use prefix_by_date::ui::state::{Change, Current, State};
use prefix_by_date::ui::{from, Gui, InterfaceKind, NonInteractive};

fn confirm_state(change: Change) -> State {
    let current = Current::Confirm(change);
    State { actions: Action::determine_for(&current), current, ..State::default() }
}

fn rescue_state(change: Change) -> State {
    let current = Current::Rescue(change);
    State { actions: Action::determine_for(&current), current, ..State::default() }
}

#[test]
fn from_different_interactive_values() {
    assert_eq!(InterfaceKind::NonInteractive, from(Interactive::Gui, true));
    assert_eq!(InterfaceKind::Text, from(Interactive::Text, true));
    assert_eq!(InterfaceKind::NonInteractive, from(Interactive::Text, false));
    assert_eq!(InterfaceKind::NonInteractive, from(Interactive::Off, true));
}

#[test]
fn non_interactive_available() {
    assert!(NonInteractive::available());
}

#[test]
fn non_interactive_answers() {
    let ui = NonInteractive::new();
    assert_eq!(Confirmation::Accept, ui.confirm(&Replacement::default()));
    assert!(matches!(ui.rescue(Error::no_match("/a")), Err(Error::NoMatch(p)) if p == "/a"));
    let _gui: Gui = Gui::new();
}

#[test]
fn prompts() {
    let confirm = Current::Confirm(Change::default());
    let rescue = Current::Rescue(Change::default());
    assert_eq!(Some("Yes, accept the rename and continue"), prompt_for(&Action::Accept, &confirm));
    assert_eq!(Some("Refuse the rename and continue"), prompt_for(&Action::Refuse, &confirm));
    assert_eq!(None, prompt_for(&Action::Refuse, &rescue));
    assert_eq!(None, prompt_for(&Action::Replace(Replacement::default()), &confirm));
    assert_eq!(Some("Quit now, refusing this rename"), prompt_for(&Action::Abort, &rescue));
}

#[test]
fn main_dialog_lists_prompted_actions() {
    let state = confirm_state(Change::default());
    let options = main_options(&state);
    let prompts: Vec<&str> = options.iter().map(|o| o.0).collect();
    assert_eq!(
        prompts,
        vec![
            "Yes, accept the rename and continue",
            "Always accept similar rename and continue",
            "Customize the rename",
            "Skip renaming this file",
            "Refuse the rename and continue",
            "Ignore all similar rename and continue",
            "Quit now, refusing this rename",
        ]
    );

    let state = rescue_state(Change::default());
    let prompts: Vec<&str> = main_options(&state).iter().map(|o| o.0).collect();
    assert_eq!(
        prompts,
        vec!["Customize the rename", "Skip renaming this file", "Quit now, refusing this rename"]
    );
}

#[test]
fn dialog_until_decided() {
    let rep = Replacement::try_from("/a/foo 20240120").unwrap().new_file_stem(String::from("2024-01-20 foo"));
    let mut state = confirm_state(Change::new(rep.clone()));
    assert!(matches!(dialog_for(&state), Dialog::Main(_)));

    assert!(execute(&mut state, Action::Accept).is_none());
    match dialog_for(&state) {
        Dialog::Decided(conf) => assert_eq!(Confirmation::Accept, conf),
        other => panic!("unexpected: {:?}", other),
    }
}

#[test]
fn customize_then_proceed() {
    let rep = Replacement::try_from("/a/foo.txt").unwrap().new_file_stem(String::from("2024 foo"));
    let mut state = rescue_state(Change::new(rep.clone()));

    let dialog = execute(&mut state, Action::Customize(rep.clone()));
    match dialog {
        Some(Dialog::Input(initial)) => assert_eq!("2024 foo", initial),
        other => panic!("unexpected: {:?}", other),
    }
    let next = typed(&mut state, String::from("bar"));
    assert_eq!(Action::ConfirmCustomization, next);

    let dialog = execute(&mut state, next);
    let proposed = match dialog {
        Some(Dialog::Proceed(r)) => r,
        other => panic!("unexpected: {:?}", other),
    };
    assert_eq!("bar", proposed.new_file_stem);
    assert_eq!("/a/bar.txt", proposed.new_path());

    let next = proceed(proposed, 0).unwrap();
    assert!(execute(&mut state, next).is_none());
    match dialog_for(&state) {
        Dialog::Decided(Confirmation::Replace(r)) => assert_eq!("/a/bar.txt", r.new_path()),
        other => panic!("unexpected: {:?}", other),
    }
}

#[test]
fn proceed_answers() {
    let rep = Replacement::default();
    assert_eq!(Some(Action::Replace(Replacement::default())), proceed(rep.clone(), 0));
    assert_eq!(Some(Action::Cancel), proceed(rep.clone(), 1));
    assert_eq!(Some(Action::Customize(Replacement::default())), proceed(rep.clone(), 2));
    assert_eq!(None, proceed(rep, 3));
}

#[test]
fn cancel_customization_offers_customize_again() {
    let mut state = rescue_state(Change::default());
    execute(&mut state, Action::Customize(Replacement::default()));
    assert!(!state.actions.iter().any(|a| a == &Action::Customize(Replacement::default())));
    assert!(execute(&mut state, Action::Cancel).is_none());
    assert_eq!(None, state.change().unwrap().customize);
    assert!(state.actions.iter().any(|a| a == &Action::Customize(Replacement::default())));
}

#[test]
fn alternatives_dialog() {
    let alt = Replacement::try_from("/a/foo").unwrap().new_file_stem(String::from("2020 foo"));
    let change = Change { alternatives: vec![(String::from("other"), alt)], ..Change::default() };
    let mut state = confirm_state(change);

    match execute(&mut state, Action::ViewAlternatives) {
        Some(Dialog::Alternatives(alts)) => {
            assert_eq!(1, alts.len());
            assert_eq!("other", alts[0].0);
        }
        other => panic!("unexpected: {:?}", other),
    }
    assert_eq!(None, choose_alternative(&mut state, 1));
    assert_eq!(None, state.change().unwrap().customize);
    assert_eq!(Some(Action::ConfirmCustomization), choose_alternative(&mut state, 0));
    assert_eq!(Some(String::from("2020 foo")), state.change().unwrap().customize);

    let mut rescue = rescue_state(Change::default());
    assert!(execute(&mut rescue, Action::ViewAlternatives).is_none());
    assert_eq!(None, choose_alternative(&mut rescue, 0));
}

#[test]
fn rescue_starts_from_no_match_only() {
    let rep = rescue_start(&Error::no_match("/a/b.c"), &None).unwrap();
    assert_eq!("b", rep.file_stem);
    assert!(rescue_start(&Error::not_found("/a/b.c"), &None).is_none());
    assert!(rescue_start(&Error::no_match("/"), &None).is_none());
    let rep = rescue_start(&Error::no_match("/link/foo"), &Some(String::from("/real/dir"))).unwrap();
    assert_eq!("/real/dir", rep.parent);
    assert_eq!("/real/dir/foo", rep.path());
}

#[test]
fn rescue_outcomes() {
    let error = Error::no_match("/a");
    assert!(matches!(rescue_outcome(Confirmation::Abort, error.clone()), (Err(Error::Abort), true)));
    assert!(matches!(rescue_outcome(Confirmation::Skip, error.clone()), (Err(Error::NoMatch(_)), true)));
    assert!(matches!(rescue_outcome(Confirmation::Refuse, error.clone()), (Err(Error::NoMatch(_)), true)));
    assert!(matches!(rescue_outcome(Confirmation::Accept, error.clone()), (Err(Error::NoMatch(_)), false)));
    let rep = Replacement::try_from("/a/x").unwrap();
    match rescue_outcome(Confirmation::Replace(rep.clone()), error) {
        (Ok(r), true) => assert_eq!(rep, r),
        other => panic!("unexpected: {:?}", other),
    }
}

/// Runs `ui` over `paths` in a directory held in memory, whose files are
/// renamed in place.
fn run_in_memory<C: Communication>(ui: &C, matchers: Vec<Matcher>, paths: &[&str], files: &mut Vec<String>) {
    let mut processing = Processing::new(matchers, paths.iter().map(|p| p.to_string()).collect());
    let mut event = Event::Start;
    loop {
        assert!(processing.well_formed() && processing.accepts(&event));
        event = match processing.step(event) {
            Command::ReportSetup(count) => {
                ui.setup(count);
                Event::Acknowledged
            }
            Command::Inspect(path) => {
                ui.processing(&path);
                Event::Inspected(PathFacts { exists: files.contains(&path), created: None, modified: None, parent: None })
            }
            Command::Confirm(replacement) => Event::Confirmed(ui.confirm(&replacement)),
            Command::Rescue(error) => Event::Rescued(ui.rescue(error)),
            Command::Execute(replacement) => match files.iter().position(|f| *f == replacement.path()) {
                Some(i) => {
                    files[i] = replacement.new_path();
                    Event::Executed(Ok(replacement))
                }
                None => Event::Executed(Err(Error::Io(String::from("missing")))),
            },
            Command::ReportOk(replacement) => {
                ui.processing_ok(&replacement);
                Event::Acknowledged
            }
            Command::ReportErr(path, error) => {
                ui.processing_err(&path, &error);
                Event::Acknowledged
            }
            Command::Finish(result) => {
                assert!(result.is_ok());
                return;
            }
        };
    }
}

#[test]
fn non_interactive_run() {
    let matchers = vec![Matcher::Pattern(
        Pattern::builder()
            .name("ymd")
            .regex(r"(?<start>.+)\s+(?<year>\d{4})(?<month>\d{2})(?<day>\d{2})")
            .build()
            .unwrap(),
    )];
    let mut files = vec![String::from("/tmp/t/foo 20240120"), String::from("/tmp/t/bar 2024012")];
    let ui = NonInteractive::new();

    run_in_memory(&ui, matchers, &["/tmp/t/foo 20240120", "/tmp/t/bar 2024012"], &mut files);

    assert!(!files.contains(&String::from("/tmp/t/foo 20240120")));
    assert!(files.contains(&String::from("/tmp/t/2024-01-20 foo")));
    assert!(files.contains(&String::from("/tmp/t/bar 2024012")));
}

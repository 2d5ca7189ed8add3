use prefix_by_date::matcher::predetermined_date::TODAY;
use prefix_by_date::matcher::{Matcher, PathFacts, Pattern, PredeterminedDate};
use prefix_by_date::processing::Confirmation;
use prefix_by_date::replacement::Replacement;
use prefix_by_date::ui::actions::Action;
use prefix_by_date::ui::state::{Change, Current, ProcessingResult, State};

/// The states a path goes through, after the start.
fn currents() -> Vec<Current> {
    vec![
        Current::Path(String::default()),
        Current::Confirm(Change::default()),
        Current::Rescue(Change::default()),
        Current::Resolving(Confirmation::Accept),
        Current::Resolved,
    ]
}

fn state_at(current: &Current, actions: Vec<Action>) -> State {
    State { current: current.clone(), actions, ..State::default() }
}

fn facts() -> PathFacts {
    PathFacts { exists: true, created: None, modified: None, parent: None }
}

fn ymd() -> Pattern {
    Pattern::builder()
        .name("ymd")
        .regex(r"(?<start>.+)\s+(?<year>\d{4})(?<month>\d{2})(?<day>\d{2})")
        .build()
        .unwrap()
}

#[test]
fn state_new() {
    let state = State::default();
    assert_eq!(state.len(), 0);

    let state = State::new(0xDEAD);
    assert_eq!(state.index(), 0);
    assert_eq!(state.len(), 0xDEAD);
    assert_eq!(state.current(), &Current::Idle);
    assert!(state.actions().is_empty());
    assert!(state.logs().is_empty());
}

#[test]
fn set_current_path() {
    let path = String::from("/test");

    for current in currents() {
        let mut state = state_at(&current, vec![Action::Cancel]);
        state.set_current_path(path.clone());

        match current {
            Current::Idle | Current::Resolved => {
                assert_eq!(state.current, Current::Path(path.clone()));
                assert!(state.actions.is_empty());
            }
            _ => {
                assert_eq!(state.current, current);
            }
        }
    }

    let mut state = State::new(1);
    state.set_current_path(path.clone());
    assert!(matches!(&state.current, Current::Path(p) if *p == path));
}

#[test]
fn set_current_confirm() {
    let replacement = Replacement::try_from("/test").unwrap();

    for current in currents() {
        let mut state = state_at(&current, vec![Action::Cancel]);
        state.set_current_confirm(replacement.clone(), &[], &facts());

        match current {
            Current::Path(_) | Current::Resolving(_) => {
                assert_eq!(state.current, Current::Confirm(Change::new(replacement.clone())));
                assert!(state.actions.iter().any(|action| action == &Action::Accept));
            }
            _ => {
                assert_eq!(state.current, current);
            }
        }
    }
}

#[test]
fn set_current_confirm_with_matchers() {
    let mut replacement = Replacement::try_from("/test/foo 20240120").unwrap();
    replacement.new_file_stem = String::from("2024-01-20 foo");
    let matchers = [Matcher::Pattern(ymd()), Matcher::PredeterminedDate(PredeterminedDate::default())];

    let mut state = state_at(&Current::Path(String::default()), vec![]);
    state.set_current_confirm(replacement.clone(), &matchers, &facts());

    assert!(matches!(state.current, Current::Confirm(_)));
    let change = state.change().unwrap();
    assert_eq!(change.alternatives.len(), 1);

    let (key, rep) = change.alternatives.iter().next().unwrap();
    assert_eq!(key, TODAY);
    assert_eq!(replacement.parent, rep.parent);
}

#[test]
fn set_current_confirm_offers_view_alternatives() {
    let mut replacement = Replacement::try_from("/test/foo 20240120").unwrap();
    replacement.new_file_stem = String::from("something else");
    let matchers = [Matcher::Pattern(ymd())];

    let mut state = state_at(&Current::Path(String::default()), vec![]);
    state.set_current_confirm(replacement, &matchers, &facts());

    let change = state.change().unwrap();
    assert_eq!(change.alternatives.len(), 1);
    assert_eq!(change.alternatives[0].0, "ymd");
    assert_eq!(change.alternatives[0].1.new_file_stem, "2024-01-20 foo");
    assert!(state.actions.iter().any(|a| a == &Action::ViewAlternatives));
}

#[test]
fn set_current_confirm_keeps_one_alternative_per_name() {
    let mut replacement = Replacement::try_from("/test/foo 20240120").unwrap();
    replacement.new_file_stem = String::from("something else");
    let matchers = [Matcher::Pattern(ymd()), Matcher::Pattern(ymd())];

    let mut state = state_at(&Current::Path(String::default()), vec![]);
    state.set_current_confirm(replacement, &matchers, &facts());
    assert_eq!(state.change().unwrap().alternatives.len(), 1);
}

#[test]
fn set_current_rescue() {
    let replacement = Replacement::default();

    for current in currents() {
        let mut state = state_at(&current, vec![Action::Cancel]);
        state.set_current_rescue(replacement.clone());

        match current {
            Current::Path(_) => {
                assert_eq!(state.current, Current::Rescue(Change::new(replacement.clone())));
                assert!(state.actions.iter().any(|action| action == &Action::Skip));
            }
            _ => {
                assert_eq!(state.current, current);
            }
        }
    }
}

#[test]
fn set_current_resolving() {
    let conf = Confirmation::Accept;

    for current in currents() {
        let mut state = state_at(&current, Action::determine_for(&current));
        let resolving = state.set_current_resolving(conf.clone());

        match current {
            Current::Confirm(_) => {
                assert!(resolving);
                assert_eq!(state.current, Current::Resolving(Confirmation::Accept));
                assert!(state.actions.is_empty());
            }
            Current::Rescue(_) => {
                assert!(!resolving);
                assert_eq!(state.current, current);

                let resolving = state.set_current_resolving(Confirmation::Skip);
                assert!(resolving);
                assert_eq!(state.current, Current::Resolving(Confirmation::Accept));
                assert!(state.actions.is_empty());
            }
            _ => {
                assert!(!resolving);
                assert_eq!(state.current, current);
            }
        }
    }
}

#[test]
fn set_current_success() {
    let replacement = Replacement::default();

    for current in currents() {
        let mut state = state_at(&current, vec![Action::Cancel]);
        state.set_current_success(replacement.clone());

        match current {
            Current::Resolving(_) => {
                assert_eq!(state.current, Current::Resolved);
                assert!(state.actions.is_empty());
                assert_eq!(state.index(), 1);
                assert_eq!(state.logs, [ProcessingResult::Success(replacement.clone())]);
            }
            _ => {
                assert_eq!(state.current, current);
                assert_eq!(state.index(), 0);
            }
        }
    }
}

#[test]
fn set_current_failure() {
    let path = String::default();
    let error = String::default();

    for current in currents() {
        let mut state = state_at(&current, vec![Action::Cancel]);
        state.set_current_failure(path.clone(), error.clone());

        match current {
            Current::Resolving(_) => {
                assert_eq!(state.current, Current::Resolved);
                assert!(state.actions.is_empty());
                assert_eq!(state.index(), 1);
                assert_eq!(state.logs, [ProcessingResult::Failure(path.clone(), error.clone())]);
            }
            _ => {
                assert_eq!(state.current, current);
                assert_eq!(state.index(), 0);
            }
        }
    }
}

#[test]
fn customize() {
    let string = String::from("foo");

    for current in currents() {
        let mut state = state_at(&current, vec![Action::Cancel]);
        state.customize(string.clone());

        match current {
            Current::Confirm(_) | Current::Rescue(_) => {
                assert_eq!(state.change().unwrap().customize, Some(string.clone()));
                assert!(state.actions.iter().all(|action| action != &Action::Cancel));
            }
            _ => {
                assert_eq!(state.actions, vec![Action::Cancel]);
            }
        }
    }
}

#[test]
fn cancel_customize() {
    let string = String::from("foo");

    for current in currents() {
        let mut state = state_at(&current, vec![Action::Cancel]);
        state.customize(string.clone());
        state.actions = vec![Action::Cancel];
        state.cancel_customize();

        match current {
            Current::Confirm(_) | Current::Rescue(_) => {
                assert_eq!(state.change().unwrap().customize, None);
                assert!(state.actions.iter().all(|action| action != &Action::Cancel));
            }
            _ => {
                assert_eq!(state.actions, vec![Action::Cancel]);
            }
        }
    }
}

#[test]
fn customized_replacement() {
    for current in currents() {
        let state = state_at(&current, vec![]);

        assert_eq!(state.customized_replacement(), None);
    }

    let string = String::from("foo");

    for current in currents() {
        let mut state = state_at(&current, vec![]);
        state.customize(string.clone());

        match current {
            Current::Confirm(_) | Current::Rescue(_) => {
                assert!(state.customized_replacement().is_some());
                assert_eq!(state.customized_replacement().unwrap().new_file_stem, string);
            }
            _ => {
                assert_eq!(state.customized_replacement(), None);
            }
        }
    }
}

#[test]
fn is_further_customizable() {
    let mut change = Change::default();
    assert!(change.is_further_customizable());

    change.customize = Some(String::default());
    assert!(!change.is_further_customizable());

    change.alternatives = vec![("Hello".to_string(), Replacement::default())];
    assert!(change.is_further_customizable());
}

#[test]
fn processing_result_display() {
    let rep = Replacement::try_from("/a/b.c").unwrap().new_file_stem(String::from("d"));
    assert_eq!("/a/{b => d}.c", ProcessingResult::Success(rep).to_display());
    assert_eq!("boom", ProcessingResult::Failure(String::from("/a"), String::from("boom")).to_display());
}

#[test]
fn rescue_refuses_accept_always_ignore() {
    let current = Current::Rescue(Change::default());
    for conf in [Confirmation::Accept, Confirmation::Always, Confirmation::Ignore] {
        let mut state = state_at(&current, Action::determine_for(&current));
        assert!(!state.set_current_resolving(conf));
        assert_eq!(state.current, current);
    }
}

#[test]
fn a_full_path_goes_through_every_state() {
    let mut state = State::new(2);
    let rep = Replacement::try_from("/a/b 20240120").unwrap();
    state.set_current_path(String::from("/a/b 20240120"));
    state.set_current_confirm(rep.clone(), &[], &facts());
    assert!(state.set_current_resolving(Confirmation::Accept));
    state.set_current_success(rep.clone());
    assert_eq!(state.index(), 1);
    assert_eq!(state.logs().len(), 1);
    state.set_current_path(String::from("/a/c"));
    assert!(matches!(state.current(), Current::Path(_)));
}

#[test]
fn cancel_undoes_customize() {
    let current = Current::Confirm(Change::new(Replacement::try_from("/a/b").unwrap()));
    let mut state = state_at(&current, Action::determine_for(&current));
    let before = state.actions.clone();
    state.customize(String::from("typed"));
    assert_ne!(before, state.actions);
    state.cancel_customize();
    assert_eq!(before, state.actions);
    assert_eq!(None, state.change().unwrap().customize);
}

#[test]
fn log_follows_index_through_two_paths() {
    let mut state = State::new(2);
    let rep = Replacement::try_from("/a/b.txt").unwrap();
    assert_eq!(state.logs().len(), state.index());
    state.set_current_path(String::from("/a/b.txt"));
    state.set_current_rescue(rep.clone());
    assert_eq!(state.logs().len(), state.index());
    state.set_current_success(rep.clone());
    assert_eq!(state.index(), 0);
    assert!(state.set_current_resolving(Confirmation::Skip));
    state.set_current_failure(String::from("/a/b.txt"), String::from("skipped"));
    assert_eq!((1, 1), (state.index(), state.logs().len()));
    state.set_current_path(String::from("/a/c.txt"));
    state.set_current_confirm(rep.clone(), &[], &facts());
    assert!(state.set_current_resolving(Confirmation::Accept));
    state.set_current_success(rep);
    assert_eq!((2, 2), (state.index(), state.logs().len()));
}

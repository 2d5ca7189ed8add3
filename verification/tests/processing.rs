use std::collections::VecDeque;

use prefix_by_date::matcher::{Matcher, PathFacts, Pattern, PredeterminedDate};
use prefix_by_date::processing::log_reporter::{decimal_text, LogReporter};
use prefix_by_date::processing::notif_reporter::{NotifReporter, FIRST_BODY, SUMMARY};
use prefix_by_date::processing::{Command, Confirmation, Error, Event, Processing};
use prefix_by_date::replacement::Replacement;

/// What the run told the front end, in order.
#[derive(Debug, PartialEq)]
enum Call {
    Setup(usize),
    Processing(String),
    Confirm(String),
    Rescue(&'static str),
    Renamed(String),
    Failed(String, &'static str),
}

fn kind(error: &Error) -> &'static str {
    match error {
        Error::Io(_) => "Io",
        Error::NotFound(_) => "NotFound",
        Error::NoMatch(_) => "NoMatch",
        Error::Skip(_) => "Skip",
        Error::Abort => "Abort",
        Error::PathUnwrap(_, _) => "PathUnwrap",
    }
}

/// A directory held in memory: the paths of its files.
struct Dir {
    files: Vec<String>,
}

impl Dir {
    fn with(files: &[&str]) -> Self {
        Dir { files: files.iter().map(|f| f.to_string()).collect() }
    }

    fn holds(&self, path: &str) -> bool {
        self.files.iter().any(|f| f == path)
    }

    fn rename(&mut self, replacement: &Replacement) -> Result<Replacement, Error> {
        let from = replacement.path();
        match self.files.iter().position(|f| *f == from) {
            Some(i) => {
                self.files[i] = replacement.new_path();
                Ok(replacement.clone())
            }
            None => Err(Error::Io(String::from("No such file or directory (os error 2)"))),
        }
    }
}

/// Drives a run to its end: the directory answers what the file system
/// would, `confirms` are the user's decisions in order, `rescue` answers the
/// rescues.
fn run<F>(
    matchers: Vec<Matcher>,
    paths: &[&str],
    dir: &mut Dir,
    confirms: &mut VecDeque<Confirmation>,
    mut rescue: F,
) -> (Result<(), Error>, Vec<Call>)
where
    F: FnMut(Error) -> Result<Replacement, Error>,
{
    let mut processing = Processing::new(matchers, paths.iter().map(|p| p.to_string()).collect());
    let mut calls = vec![];
    let mut event = Event::Start;
    loop {
        assert!(processing.well_formed());
        assert!(processing.accepts(&event));
        event = match processing.step(event) {
            Command::ReportSetup(count) => {
                calls.push(Call::Setup(count));
                Event::Acknowledged
            }
            Command::Inspect(path) => {
                calls.push(Call::Processing(path.clone()));
                Event::Inspected(PathFacts { exists: dir.holds(&path), created: None, modified: None, parent: None })
            }
            Command::Confirm(replacement) => {
                calls.push(Call::Confirm(replacement.new_file_stem.clone()));
                Event::Confirmed(confirms.pop_front().expect("a decision"))
            }
            Command::Rescue(error) => {
                calls.push(Call::Rescue(kind(&error)));
                Event::Rescued(rescue(error))
            }
            Command::Execute(replacement) => Event::Executed(dir.rename(&replacement)),
            Command::ReportOk(replacement) => {
                calls.push(Call::Renamed(replacement.new_path()));
                Event::Acknowledged
            }
            Command::ReportErr(path, error) => {
                calls.push(Call::Failed(path, kind(&error)));
                Event::Acknowledged
            }
            Command::Finish(result) => {
                assert!(processing.finished());
                return (result, calls);
            }
        };
    }
}

fn predetermined_date() -> Matcher {
    Matcher::PredeterminedDate(PredeterminedDate::default())
}

fn weird_pattern() -> Matcher {
    Matcher::Pattern(Pattern::builder().name("weird").regex("WEIRD").build().unwrap())
}

fn ymd_pattern() -> Matcher {
    Matcher::Pattern(
        Pattern::builder()
            .name("ymd")
            .regex(r"(?<start>.+)\s+(?<year>\d{4})(?<month>\d{2})(?<day>\d{2})")
            .build()
            .unwrap(),
    )
}

fn no_rescue(_: Error) -> Result<Replacement, Error> {
    panic!("no rescue expected")
}

#[test]
fn empty_paths_and_or_matchers() {
    let mut dir = Dir::with(&["foo"]);
    let mut confirms = VecDeque::new();

    let (result, calls) = run(vec![], &[], &mut dir, &mut confirms, no_rescue);
    assert!(result.is_ok());
    assert!(calls.is_empty());

    let (result, calls) = run(vec![predetermined_date()], &[], &mut dir, &mut confirms, no_rescue);
    assert!(result.is_ok());
    assert!(calls.is_empty());

    let (result, calls) = run(vec![], &["foo"], &mut dir, &mut confirms, no_rescue);
    assert!(result.is_ok());
    assert!(calls.is_empty());
}

#[test]
fn unexisting_path() {
    let mut dir = Dir::with(&[]);
    let mut confirms = VecDeque::new();
    let (result, calls) = run(vec![predetermined_date()], &["/tmp/t/foo"], &mut dir, &mut confirms, no_rescue);

    assert!(result.is_ok());
    assert_eq!(
        calls,
        vec![
            Call::Setup(1),
            Call::Processing(String::from("/tmp/t/foo")),
            Call::Failed(String::from("/tmp/t/foo"), "NotFound"),
        ]
    );
}

#[test]
fn rescue_and_return_error() {
    let mut dir = Dir::with(&["/tmp/t/foo"]);
    let mut confirms = VecDeque::new();
    let (result, calls) = run(vec![weird_pattern()], &["/tmp/t/foo"], &mut dir, &mut confirms, |e| Err(e));

    assert!(result.is_ok());
    assert_eq!(
        calls,
        vec![
            Call::Setup(1),
            Call::Processing(String::from("/tmp/t/foo")),
            Call::Rescue("NoMatch"),
            Call::Failed(String::from("/tmp/t/foo"), "NoMatch"),
        ]
    );
}

#[test]
fn rescue_and_return_replacement() {
    let mut dir = Dir::with(&["/tmp/t/foo"]);
    let mut confirms = VecDeque::new();
    let mut replacement = Replacement::try_from("/tmp/t/foo").unwrap();
    replacement.new_file_stem = String::from("bar");
    let mut given = Some(replacement);

    let (result, calls) =
        run(vec![weird_pattern()], &["/tmp/t/foo"], &mut dir, &mut confirms, |_| Ok(given.take().unwrap()));

    assert!(result.is_ok());
    assert_eq!(
        calls,
        vec![
            Call::Setup(1),
            Call::Processing(String::from("/tmp/t/foo")),
            Call::Rescue("NoMatch"),
            Call::Renamed(String::from("/tmp/t/bar")),
        ]
    );
    assert!(!dir.holds("/tmp/t/foo"));
    assert!(dir.holds("/tmp/t/bar"));
}

#[test]
fn rescue_and_return_erroneous_replacement() {
    let mut dir = Dir::with(&["/tmp/t/foo"]);
    let mut confirms = VecDeque::new();
    let replacement = Replacement::try_from("/tmp/t/bar").unwrap();
    let mut given = Some(replacement);

    let (result, calls) =
        run(vec![weird_pattern()], &["/tmp/t/foo"], &mut dir, &mut confirms, |_| Ok(given.take().unwrap()));

    assert!(result.is_ok());
    assert_eq!(
        calls,
        vec![
            Call::Setup(1),
            Call::Processing(String::from("/tmp/t/foo")),
            Call::Rescue("NoMatch"),
            Call::Failed(String::from("/tmp/t/foo"), "Io"),
        ]
    );
}

#[test]
fn confirm_accept() {
    let mut dir = Dir::with(&["/tmp/t/foo 20240120", "/tmp/t/bar 20240120"]);
    let mut confirms = VecDeque::from([Confirmation::Accept, Confirmation::Accept]);
    let (result, calls) = run(
        vec![ymd_pattern()],
        &["/tmp/t/foo 20240120", "/tmp/t/bar 20240120"],
        &mut dir,
        &mut confirms,
        no_rescue,
    );

    assert!(result.is_ok());
    assert_eq!(
        calls,
        vec![
            Call::Setup(2),
            Call::Processing(String::from("/tmp/t/foo 20240120")),
            Call::Confirm(String::from("2024-01-20 foo")),
            Call::Renamed(String::from("/tmp/t/2024-01-20 foo")),
            Call::Processing(String::from("/tmp/t/bar 20240120")),
            Call::Confirm(String::from("2024-01-20 bar")),
            Call::Renamed(String::from("/tmp/t/2024-01-20 bar")),
        ]
    );
    assert!(!dir.holds("/tmp/t/foo 20240120"));
    assert!(dir.holds("/tmp/t/2024-01-20 foo"));
    assert!(!dir.holds("/tmp/t/bar 20240120"));
    assert!(dir.holds("/tmp/t/2024-01-20 bar"));
}

#[test]
fn confirm_always() {
    let mut dir = Dir::with(&["/tmp/t/foo 20240120", "/tmp/t/bar 20240120"]);
    let mut confirms = VecDeque::from([Confirmation::Always]);
    let (result, calls) = run(
        vec![ymd_pattern()],
        &["/tmp/t/foo 20240120", "/tmp/t/bar 20240120"],
        &mut dir,
        &mut confirms,
        no_rescue,
    );

    assert!(result.is_ok());
    assert_eq!(
        calls,
        vec![
            Call::Setup(2),
            Call::Processing(String::from("/tmp/t/foo 20240120")),
            Call::Confirm(String::from("2024-01-20 foo")),
            Call::Renamed(String::from("/tmp/t/2024-01-20 foo")),
            Call::Processing(String::from("/tmp/t/bar 20240120")),
            Call::Renamed(String::from("/tmp/t/2024-01-20 bar")),
        ]
    );
    assert!(dir.holds("/tmp/t/2024-01-20 foo"));
    assert!(dir.holds("/tmp/t/2024-01-20 bar"));
}

#[test]
fn confirm_skip() {
    let mut dir = Dir::with(&["/tmp/t/foo 20240120"]);
    let mut confirms = VecDeque::from([Confirmation::Skip]);
    let (result, calls) =
        run(vec![ymd_pattern(), ymd_pattern()], &["/tmp/t/foo 20240120"], &mut dir, &mut confirms, no_rescue);

    assert!(result.is_ok());
    assert_eq!(
        calls,
        vec![
            Call::Setup(1),
            Call::Processing(String::from("/tmp/t/foo 20240120")),
            Call::Confirm(String::from("2024-01-20 foo")),
            Call::Failed(String::from("/tmp/t/foo 20240120"), "Skip"),
        ]
    );
    assert!(dir.holds("/tmp/t/foo 20240120"));
}

#[test]
fn confirm_refuse_twice_and_return_no_match_without_rescue() {
    let mut dir = Dir::with(&["/tmp/t/foo 20240120"]);
    let mut confirms = VecDeque::from([Confirmation::Refuse, Confirmation::Refuse]);
    let (result, calls) =
        run(vec![ymd_pattern(), ymd_pattern()], &["/tmp/t/foo 20240120"], &mut dir, &mut confirms, no_rescue);

    assert!(result.is_ok());
    assert_eq!(
        calls,
        vec![
            Call::Setup(1),
            Call::Processing(String::from("/tmp/t/foo 20240120")),
            Call::Confirm(String::from("2024-01-20 foo")),
            Call::Confirm(String::from("2024-01-20 foo")),
            Call::Failed(String::from("/tmp/t/foo 20240120"), "NoMatch"),
        ]
    );
}

#[test]
fn confirm_ignore() {
    let mut dir = Dir::with(&["/tmp/t/foo 20240120"]);
    let mut confirms = VecDeque::from([Confirmation::Ignore]);
    let (result, calls) = run(
        vec![ymd_pattern()],
        &["/tmp/t/foo 20240120", "/tmp/t/foo 20240120"],
        &mut dir,
        &mut confirms,
        |e| Err(e),
    );

    assert!(result.is_ok());
    assert_eq!(
        calls,
        vec![
            Call::Setup(2),
            Call::Processing(String::from("/tmp/t/foo 20240120")),
            Call::Confirm(String::from("2024-01-20 foo")),
            Call::Failed(String::from("/tmp/t/foo 20240120"), "NoMatch"),
            Call::Processing(String::from("/tmp/t/foo 20240120")),
            Call::Rescue("NoMatch"),
            Call::Failed(String::from("/tmp/t/foo 20240120"), "NoMatch"),
        ]
    );
}

#[test]
fn confirm_abort() {
    let mut dir = Dir::with(&["/tmp/t/foo 20240120"]);
    let mut confirms = VecDeque::from([Confirmation::Abort]);
    let (result, calls) = run(
        vec![ymd_pattern(), ymd_pattern()],
        &["/tmp/t/foo 20240120", "/tmp/t/foo 20240120"],
        &mut dir,
        &mut confirms,
        no_rescue,
    );

    assert!(matches!(result, Err(Error::Abort)));
    assert_eq!(
        calls,
        vec![
            Call::Setup(2),
            Call::Processing(String::from("/tmp/t/foo 20240120")),
            Call::Confirm(String::from("2024-01-20 foo")),
            Call::Failed(String::from("/tmp/t/foo 20240120"), "Abort"),
        ]
    );
}

#[test]
fn confirm_replace() {
    let mut dir = Dir::with(&["/tmp/t/foo 20240120"]);
    let mut replacement = Replacement::try_from("/tmp/t/foo 20240120").unwrap();
    replacement.new_file_stem = String::from("bar");
    let mut confirms = VecDeque::from([Confirmation::Replace(replacement)]);
    let (result, calls) = run(vec![ymd_pattern()], &["/tmp/t/foo 20240120"], &mut dir, &mut confirms, no_rescue);

    assert!(result.is_ok());
    assert_eq!(
        calls,
        vec![
            Call::Setup(1),
            Call::Processing(String::from("/tmp/t/foo 20240120")),
            Call::Confirm(String::from("2024-01-20 foo")),
            Call::Renamed(String::from("/tmp/t/bar")),
        ]
    );
    assert!(!dir.holds("/tmp/t/foo 20240120"));
    assert!(dir.holds("/tmp/t/bar"));
}

#[test]
fn auto_accepted_matcher_is_never_confirmed() {
    let mut dir = Dir::with(&["/tmp/t/foo.txt"]);
    let mut confirms = VecDeque::new();
    let (result, calls) = run(vec![predetermined_date()], &["/tmp/t/foo.txt"], &mut dir, &mut confirms, no_rescue);

    assert!(result.is_ok());
    assert_eq!(calls.len(), 3);
    assert!(matches!(&calls[2], Call::Renamed(_)));
}

#[test]
fn refused_then_next_matcher_is_asked() {
    let mut dir = Dir::with(&["/tmp/t/foo 20240120"]);
    let mut confirms = VecDeque::from([Confirmation::Refuse, Confirmation::Accept]);
    let (result, calls) = run(
        vec![ymd_pattern(), Matcher::Pattern(Pattern::builder().name("other").regex(r"(?<rest>\w+)\s(?<year>\d{4})(?<day>\d{2})(?<month>\d{2})").build().unwrap())],
        &["/tmp/t/foo 20240120"],
        &mut dir,
        &mut confirms,
        no_rescue,
    );
    assert!(result.is_ok());
    assert_eq!(calls[2], Call::Confirm(String::from("2024-01-20 foo")));
    assert_eq!(calls[3], Call::Confirm(String::from("2024-01-20 foo")));
    assert_eq!(calls[4], Call::Renamed(String::from("/tmp/t/2024-01-20 foo")));
}

#[test]
fn step_refuses_nothing_it_waits_for() {
    let processing = Processing::new(vec![ymd_pattern()], vec![String::from("/x")]);
    assert!(processing.accepts(&Event::Start));
    assert!(!processing.accepts(&Event::Acknowledged));
    assert!(!processing.finished());
}

#[test]
fn error_messages() {
    assert_eq!("Path not found: \"/a b\"", Error::not_found("/a b").message());
    assert_eq!("No match for path: \"/a\"", Error::no_match("/a").message());
    assert_eq!("Skipped path: \"/a\"", Error::Skip(String::from("/a")).message());
    assert_eq!("Processing aborted", Error::Abort.message());
    assert_eq!("disk full", Error::Io(String::from("disk full")).message());
    assert_eq!(
        "Unable to find the parent of \"/\"",
        Error::PathUnwrap(String::from("/"), String::from("parent")).message()
    );
    assert_eq!("Path not found: \"a\\\"b\"", Error::not_found("a\"b").message());
}

#[test]
fn log_reporter_lines() {
    let mut reporter = LogReporter::default();
    assert_eq!("Processing 12 paths...", reporter.count(12));
    assert_eq!("Processing path 1/12: \"/a/b\"", reporter.processing("/a/b"));
    assert_eq!("Processing path 2/12: \"/a/c\"", reporter.processing("/a/c"));
    let (line, error) = reporter.processing_err("/a/c", &Error::no_match("/a/c"));
    assert_eq!("Error processing path 2/12: \"/a/c\"", line);
    assert_eq!("No match for path: \"/a/c\"", error);
    let replacement = Replacement::try_from("/a/b.txt").unwrap().new_file_stem(String::from("x"));
    let (line, into) = reporter.processing_ok(&replacement);
    assert_eq!("Success processing path 2/12: \"/a/b.txt\"", line);
    assert_eq!("Into: /a/{b => x}.txt", into);
    assert_eq!("m 2/12: \"p\"", reporter.report_path("m", "p"));
}

#[test]
fn decimal_text_writes_numbers() {
    assert_eq!("0", decimal_text(0));
    assert_eq!("9", decimal_text(9));
    assert_eq!("10", decimal_text(10));
    assert_eq!("1234567890", decimal_text(1234567890));
}

#[test]
fn notification_texts() {
    let mut reporter = NotifReporter::default();
    assert_eq!("Prefix by date", SUMMARY);
    assert_eq!("Processing files", FIRST_BODY);
    reporter.setup(3);
    assert_eq!("Processing 0/3", reporter.progress_bar());
    assert_eq!("Processing \"/a/b\".<br>Processing 0/3", reporter.processing("/a/b"));
    reporter.processing_ok();
    reporter.processing_err();
    assert_eq!("Processing 2/3", reporter.message(None));
}

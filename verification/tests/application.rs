use prefix_by_date::application::cli::time_choice;
use prefix_by_date::application::{
    is_reserved, Application, Arguments, Error, Interactive, Metadata as Times, DEFAULT_DATE_FORMAT,
    DEFAULT_DATE_TIME_FORMAT,
};
use prefix_by_date::config::{ConfigTable, ConfigValue};
use prefix_by_date::matcher::metadata::{CREATED, MODIFIED};
use prefix_by_date::matcher::predetermined_date::TODAY;
use prefix_by_date::matcher::{Matcher, Pattern, PredeterminedDate};
use prefix_by_date::processing::Error as ProcessingError;

fn string(s: &str) -> ConfigValue {
    ConfigValue::String(String::from(s))
}

fn table(entries: Vec<(&str, ConfigValue)>) -> ConfigTable {
    let mut table = ConfigTable::new();
    for (key, value) in entries {
        table.insert(String::from(key), value);
    }
    table
}

fn arguments_with_config(config: ConfigTable) -> Arguments {
    let mut arguments = Arguments::default();
    arguments.apply_config_table(config);
    arguments
}

fn pattern(name: &str, time: bool) -> Pattern {
    Pattern::builder().regex(".").name(name).time(time).build().unwrap()
}

#[test]
fn default_format() {
    let mut arguments = Arguments::default();

    assert_eq!(DEFAULT_DATE_FORMAT, arguments.default_format());

    arguments.time = true;
    assert_eq!(DEFAULT_DATE_TIME_FORMAT, arguments.default_format());
}

#[test]
fn arguments_empty() {
    let arguments = arguments_with_config(ConfigTable::new());

    assert!(arguments.init_errors.is_empty());
    assert_eq!(false, arguments.time());
    assert_eq!(DEFAULT_DATE_FORMAT, arguments.default_date_format);
    assert_eq!(DEFAULT_DATE_TIME_FORMAT, arguments.default_date_time_format);
    assert_eq!(false, arguments.today());
    assert!(matches!(arguments.metadata(), Times::Neither));
    assert!(arguments.patterns.is_none());
}

#[test]
fn time_non_bool() {
    let arguments = arguments_with_config(table(vec![("time", string("foo"))]));

    assert!(arguments.init_errors.is_empty());
    assert_eq!(false, arguments.time());
}

#[test]
fn arguments_time() {
    let arguments = arguments_with_config(table(vec![("time", ConfigValue::Boolean(true))]));

    assert!(arguments.init_errors.is_empty());
    assert_eq!(true, arguments.time());
}

fn different_config_table() -> ConfigTable {
    table(vec![
        ("time", ConfigValue::Boolean(true)),
        (
            "default_format",
            ConfigValue::Table(table(vec![("date", string("%m-%d %Y")), ("date_time", string("%m-%d %Hh%Mm%S %Y"))])),
        ),
        (
            "matchers",
            ConfigValue::Table(table(vec![
                ("predetermined_date", ConfigValue::Table(table(vec![("today", ConfigValue::Boolean(true))]))),
                (
                    "metadata",
                    ConfigValue::Table(table(vec![
                        ("created", ConfigValue::Boolean(true)),
                        ("modified", ConfigValue::Boolean(true)),
                    ])),
                ),
                (
                    "patterns",
                    ConfigValue::Table(table(vec![
                        (
                            "ymd",
                            ConfigValue::Table(table(vec![
                                ("regex", string(r"(?<year>\d{4})(?<month>\d{2})(?<day>\d{2})")),
                                ("time", ConfigValue::Boolean(true)),
                            ])),
                        ),
                        ("broken", ConfigValue::Table(table(vec![("regex", string("(("))]))),
                    ])),
                ),
            ])),
        ),
    ])
}

#[test]
fn different_config() {
    let arguments = arguments_with_config(different_config_table());

    assert!(arguments.init_errors.is_empty());
    assert_eq!(true, arguments.time());
    assert_eq!("%m-%d %Y", arguments.default_date_format);
    assert_eq!("%m-%d %Hh%Mm%S %Y", arguments.default_date_time_format);
    assert_eq!(true, arguments.today());
    assert!(matches!(arguments.metadata(), Times::Both));
    assert_eq!(2, arguments.patterns.unwrap().len());
}

#[test]
fn metadata_config_only_while_no_time_chosen() {
    let mut arguments = Arguments::default();
    arguments.metadata = Times::Created;
    arguments.apply_config_table(different_config_table());
    assert!(matches!(arguments.metadata(), Times::Created));
    assert_eq!(1, arguments.init_errors.len());
    match &arguments.init_errors[0] {
        Error::Custom(message) => assert_eq!("Unexpected metadata state on parse_config: Created", message),
        other => panic!("unexpected: {:?}", other),
    }
}

#[test]
fn metadata_config_created_or_modified() {
    let config = |created: bool, modified: bool| {
        table(vec![(
            "matchers",
            ConfigValue::Table(table(vec![(
                "metadata",
                ConfigValue::Table(table(vec![
                    ("created", ConfigValue::Boolean(created)),
                    ("modified", ConfigValue::Boolean(modified)),
                ])),
            )])),
        )])
    };
    assert!(matches!(arguments_with_config(config(true, false)).metadata(), Times::Created));
    assert!(matches!(arguments_with_config(config(false, true)).metadata(), Times::Modified));
    assert!(matches!(arguments_with_config(config(false, false)).metadata(), Times::Neither));
}

#[test]
fn command_line_overrides_config() {
    let mut arguments = arguments_with_config(different_config_table());
    arguments.apply_cli(Some(false), Some(Times::Modified), false);
    assert!(!arguments.time());
    assert!(matches!(arguments.metadata(), Times::Modified));
    assert!(!arguments.today());
    assert_eq!("%m-%d %Y", arguments.default_format());

    arguments.apply_cli(None, None, true);
    assert!(!arguments.time());
    assert!(matches!(arguments.metadata(), Times::Modified));
    assert!(arguments.today());
}

#[test]
fn time_and_no_time() {
    // No flag: `--no-time` leaves `time` set, `--time` leaves `no_time` clear.
    assert!(time_choice(true, false).is_none());
    // `--time`.
    assert_eq!(Some(true), time_choice(true, true));
    // `--time --no-time`: the last one wins and clears `no_time`.
    assert_eq!(Some(false), time_choice(false, false));
    // `--no-time`.
    assert_eq!(Some(false), time_choice(false, false));
}

#[test]
fn metadata_choice() {
    assert!(Times::Created.created() && !Times::Created.modified());
    assert!(!Times::Modified.created() && Times::Modified.modified());
    assert!(Times::Both.created() && Times::Both.modified());
    assert!(!Times::Neither.created() && !Times::Neither.modified());
    assert_eq!(Interactive::Off, Interactive::default());
}

#[test]
fn mod_add_matcher_with_same_name() {
    let mut app = Application::default();

    assert_eq!(0, app.matchers.len());
    app.add_matcher(Matcher::PredeterminedDate(PredeterminedDate::default()));
    assert_eq!(1, app.matchers.len());

    app.add_matcher(Matcher::PredeterminedDate(PredeterminedDate::default()));
    assert_eq!(1, app.matchers.len());
}

#[test]
fn refuse_reserved_matcher_names() {
    let mut app = Application::default();

    for name in [TODAY, CREATED, MODIFIED] {
        assert!(is_reserved(name));
        app.add_pattern_matcher(Pattern::builder().regex(".").name(name).build().unwrap());
        assert_eq!(0, app.matchers.len());
    }

    app.add_pattern_matcher(Pattern::builder().regex(".").name("foo").build().unwrap());
    assert_eq!(1, app.matchers.len());
}

#[test]
fn refuse_different_time_values() {
    let mut app = Application::default();

    app.arguments.time = false;
    app.add_pattern_matcher(pattern("foo", true));
    assert_eq!(0, app.matchers.len());

    app.arguments.time = true;
    app.add_pattern_matcher(pattern("foo", false));
    assert_eq!(0, app.matchers.len());

    app.add_pattern_matcher(pattern("foo", true));
    assert_eq!(1, app.matchers.len());
}

#[test]
fn default_run_with_fake_ui() {
    let mut app = Application::default();
    app.setup_matchers();

    // by default, no matcher is added
    assert!(app.matchers.is_empty());
}

#[test]
fn setup_today_matcher() {
    let mut app = Application::default();
    app.arguments.today = true;
    app.setup_matchers();

    assert!(app.matchers.iter().any(|m| m.name() == TODAY));
}

#[test]
fn setup_created_matcher() {
    let mut app = Application::default();
    app.arguments.metadata = Times::Created;
    app.setup_matchers();

    assert!(app.matchers.iter().any(|m| m.name() == CREATED));
    assert!(!app.matchers.iter().any(|m| m.name() == MODIFIED));
}

#[test]
fn setup_modified_matcher() {
    let mut app = Application::default();
    app.arguments.metadata = Times::Modified;
    app.setup_matchers();

    assert!(app.matchers.iter().any(|m| m.name() == MODIFIED));
    assert!(!app.matchers.iter().any(|m| m.name() == CREATED));
}

#[test]
fn setup_metadata_both_matcher() {
    let mut app = Application::default();
    app.arguments.metadata = Times::Both;
    app.setup_matchers();

    assert!(app.matchers.iter().any(|m| m.name() == CREATED));
    assert!(app.matchers.iter().any(|m| m.name() == MODIFIED));
}

#[test]
fn setup_from_config_in_order() {
    let mut app = Application::new(arguments_with_config(different_config_table()));
    app.setup_matchers();

    let names: Vec<&str> = app.matchers.iter().map(|m| m.name()).collect();
    assert_eq!(names, vec![TODAY, "ymd", CREATED, MODIFIED]);
    assert!(app.arguments.patterns.is_none());
    assert_eq!("%m-%d %Hh%Mm%S %Y", app.matchers[1].date_format());
}

#[test]
fn application_error_messages() {
    assert_eq!("boom", Error::Custom(String::from("boom")).message());
    assert_eq!("Processing aborted", Error::from(ProcessingError::Abort).message());
    assert!(matches!(Error::from(String::from("x")), Error::Custom(s) if s == "x"));
    assert_eq!("io", Error::Io(String::from("io")).message());
    assert_eq!("log", Error::SetLogger(String::from("log")).message());
}

#[test]
fn config_table_read_write() {
    let mut config = ConfigTable::new();
    config.insert(String::from("a"), ConfigValue::Boolean(true));
    config.insert(String::from("b"), string("x"));
    assert_eq!(Some(true), config.get_bool("a"));
    assert_eq!(Some(String::from("x")), config.get_str("b"));
    assert_eq!(None, config.get_bool("b"));
    config.insert(String::from("a"), ConfigValue::Boolean(false));
    assert_eq!(2, config.len());
    assert_eq!(Some(false), config.get_bool("a"));
    assert!(matches!(config.remove("a"), Some(ConfigValue::Boolean(false))));
    assert_eq!(Some(String::from("x")), config.get_str("b"));
    assert!(config.get("a").is_none());
}

#[test]
fn paths() {
    let mut arguments = Arguments::default();
    arguments.paths = vec![String::from("foo"), String::from("bar")];

    assert_eq!([String::from("foo"), String::from("bar")], arguments.paths());
}

fn patterns_config(today: bool) -> Arguments {
    let whatsapp = r"
  [A-Z]+-
  (?<year>\d{4})
  (?<month>\d{2})
  (?<day>\d{2})
  -
  (?<rest>.+)
";
    let cic = r"
  (?<rest>.+)
  \s+au\s+
  (?<year>\d{4})
  -
  (?<month>\d{2})
  -
  (?<day>\d{2})
";
    let mut arguments = arguments_with_config(table(vec![(
        "matchers",
        ConfigValue::Table(table(vec![(
            "patterns",
            ConfigValue::Table(table(vec![
                ("whatsapp", ConfigValue::Table(table(vec![("regex", string(whatsapp))]))),
                ("cic", ConfigValue::Table(table(vec![("regex", string(cic))]))),
            ])),
        )])),
    )]));
    arguments.apply_cli(None, None, today);
    arguments
}

#[test]
fn today() {
    let mut app = Application::new(patterns_config(true));
    app.setup_matchers();

    assert_eq!(3, app.matchers.len());
    assert_eq!(TODAY, app.matchers[0].name());
    assert_eq!("whatsapp", app.matchers[1].name());
    assert_eq!("cic", app.matchers[2].name());
}

#[test]
fn read_config() {
    let mut app = Application::new(patterns_config(false));
    app.setup_matchers();

    assert_eq!(2, app.matchers.len());
    assert_eq!("whatsapp", app.matchers[0].name());
    assert_eq!("cic", app.matchers[1].name());
    let facts = prefix_by_date::matcher::PathFacts { exists: true, created: None, modified: None, parent: None };
    let rep = app.matchers[1].check("/docs/Facture au 2023-12-01.pdf", &facts).unwrap();
    assert_eq!("2023-12-01 Facture", rep.new_file_stem);
    let rep = app.matchers[0].check("/img/IMG-20231028-whatever.jpg", &facts).unwrap();
    assert_eq!("2023-10-28 whatever", rep.new_file_stem);
}

#[test]
fn state_time() {
    let mut arguments = Arguments::default();
    assert_eq!("%Y-%m-%d", arguments.default_format());

    arguments.apply_cli(Some(true), None, false);
    assert_eq!("%Y-%m-%d %Hh%Mm%S", arguments.default_format());
}

#[test]
fn state_add_matcher_with_same_name() {
    let mut app = Application::default();

    app.add_matcher(Matcher::PredeterminedDate(PredeterminedDate::default()));
    assert_eq!(1, app.matchers.len());

    app.add_matcher(Matcher::PredeterminedDate(PredeterminedDate::default()));
    assert_eq!(1, app.matchers.len());
}

#[test]
fn fails_silently_on_missing_config() {
    let mut arguments = Arguments::default();
    arguments.apply_config_source(Err(String::from(
        "Os { code: 2, kind: NotFound, message: \"No such file or directory\" }",
    )));

    match arguments.init_errors.first() {
        Some(Error::Custom(string)) => {
            assert!(string.starts_with("Unable to read config file"), "String predicate failed for: {string:?}");
        }
        other => panic!("unexpected: {:?}", other),
    }
    assert!(!arguments.time());
    assert_eq!(DEFAULT_DATE_FORMAT, arguments.default_date_format);
}

#[test]
fn fails_silently_on_incorrect_config() {
    let mut arguments = Arguments::default();
    arguments.apply_config_source(Ok(String::from("this is not toml [")));

    match arguments.init_errors.first() {
        Some(Error::Custom(string)) => {
            assert!(string.starts_with("Unable to parse config file"), "String predicate failed for: {string:?}");
        }
        other => panic!("unexpected: {:?}", other),
    }
    assert_eq!(1, arguments.init_errors.len());
}

#[test]
fn config_from_toml_text() {
    let text = r#"
time = true

[default_format]
date = "%m-%d %Y"
date_time = "%m-%d %Hh%Mm%S %Y"

[matchers.predetermined_date]
today = true

[matchers.metadata]
created = true
modified = true

[matchers.patterns.whatsapp]
regex = """
  [A-Z]+-
  (?<year>\\d{4})
  (?<month>\\d{2})
  (?<day>\\d{2})
  -
  (?<rest>.+)
"""

[matchers.patterns.cic]
regex = '(?<rest>.+)\s+au\s+(?<year>\d{4})-(?<month>\d{2})-(?<day>\d{2})'
count = 3
"#;
    let mut arguments = Arguments::default();
    arguments.apply_config_source(Ok(String::from(text)));

    assert!(arguments.init_errors.is_empty());
    assert!(arguments.time());
    assert_eq!("%m-%d %Y", arguments.default_date_format);
    assert_eq!("%m-%d %Hh%Mm%S %Y", arguments.default_date_time_format);
    assert!(arguments.today());
    assert!(matches!(arguments.metadata(), Times::Both));
    assert_eq!(2, arguments.patterns.as_ref().unwrap().len());

    let mut app = Application::new(arguments);
    app.setup_matchers();
    let names: Vec<&str> = app.matchers.iter().map(|m| m.name()).collect();
    assert_eq!(names, vec![TODAY, CREATED, MODIFIED]);
}

#[test]
fn parse_config_gives_the_table() {
    let table = prefix_by_date::config::parse_config("a = 1\nb = \"x\"\n[c]\nd = false\n").unwrap();
    assert_eq!(3, table.len());
    assert_eq!(Some(String::from("x")), table.get_str("b"));
    assert!(matches!(table.get("a"), Some(ConfigValue::Other)));
    match table.get("c") {
        Some(ConfigValue::Table(c)) => assert_eq!(Some(false), c.get_bool("d")),
        other => panic!("unexpected: {:?}", other),
    }
    assert!(prefix_by_date::config::parse_config("= nope").is_err());
}

#[test]
fn parse_config_keeps_nested_tables_in_key_order() {
    let table = prefix_by_date::config::parse_config("z = [1, 2]\n[m.p]\nq = \"r\"\n[a]\nb = true\n").unwrap();
    assert_eq!(3, table.len());
    assert_eq!("a", table.entries[0].0);
    assert_eq!("m", table.entries[1].0);
    assert_eq!("z", table.entries[2].0);
    assert!(matches!(table.get("z"), Some(ConfigValue::Other)));
    match table.get("m") {
        Some(ConfigValue::Table(m)) => match m.get("p") {
            Some(ConfigValue::Table(p)) => assert_eq!(Some(String::from("r")), p.get_str("q")),
            other => panic!("unexpected: {:?}", other),
        },
        other => panic!("unexpected: {:?}", other),
    }
}

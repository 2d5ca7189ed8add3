use prefix_by_date::application::{DEFAULT_DATE_FORMAT, DEFAULT_DATE_TIME_FORMAT};
use prefix_by_date::config::{ConfigTable, ConfigValue};
use prefix_by_date::matcher::metadata::{Kind, CREATED, MODIFIED};
use prefix_by_date::matcher::predetermined_date::{When, TODAY};
use prefix_by_date::matcher::pattern::pick_resolution;
use prefix_by_date::matcher::{LocalDateTime, Matcher, Metadata, PathFacts, Pattern, PredeterminedDate};
use prefix_by_date::replacement::Replacement;
use prefix_by_date::processing::ProcessingMatcher;

fn date_time(year: i32, month: u32, day: u32, hour: u32, min: u32, sec: u32) -> LocalDateTime {
    LocalDateTime::local(year, month, day, hour, min, sec).unwrap()
}

fn date(year: i32, month: u32, day: u32) -> LocalDateTime {
    date_time(year, month, day, 0, 0, 0)
}

fn string(s: &str) -> ConfigValue {
    ConfigValue::String(String::from(s))
}

const START_YMD_END: &str = r"
                (?<start>[A-Z]+)
                -
                (?<year>\d{4})
                (?<month>\d{2})
                (?<day>\d{2})
                -
                (?<end>.+)
                ";

#[test]
fn pattern_invalid_regex() {
    let pattern = Pattern::builder().regex(r"((").name("foo").build();
    assert!(pattern.is_none());
}

#[test]
fn builder() {
    let pattern = Pattern::builder()
        .regex(".+")
        .name("foo")
        .format("foo")
        .build()
        .unwrap();
    assert_eq!(String::from("foo"), pattern.name);
    assert_eq!(String::from(" "), pattern.delimiter);
    assert_eq!(String::from("foo"), pattern.format);

    let pattern2 = Pattern::builder()
        .regex(".+")
        .name("bar")
        .delimiter("-")
        .format("%Y-%m")
        .build()
        .unwrap();
    assert_eq!(String::from("bar"), pattern2.name);
    assert_eq!(String::from("-"), pattern2.delimiter);
    assert_eq!(String::from("%Y-%m"), pattern2.format);
}

#[test]
fn pattern_match_start_ymd_end() {
    let pattern = Pattern::builder().regex(START_YMD_END).name("foo").build().unwrap();

    let replacement = pattern.check("IMG-20231028-whatever.jpg").unwrap();

    assert_eq!(String::from("2023-10-28 IMG whatever"), replacement.new_file_stem);
}

#[test]
fn pattern_match_start_ydm_end() {
    let pattern = Pattern::builder().regex(START_YMD_END).name("foo").build().unwrap();

    let replacement = pattern.check("IMG-20232810-whatever.jpg").unwrap();

    assert_eq!(String::from("2023-10-28 IMG whatever"), replacement.new_file_stem);
}

#[test]
fn pattern_match_start_ymd_end_delimiter() {
    let pattern = Pattern::builder()
        .regex(START_YMD_END)
        .name("with delim")
        .delimiter(" ")
        .build()
        .unwrap();

    let replacement = pattern.check("IMG-20231028-whatever.jpg").unwrap();

    assert_eq!(String::from("2023-10-28 IMG whatever"), replacement.new_file_stem);
}

#[test]
fn pattern_match_start_ymd_end_no_match() {
    let pattern = Pattern::builder().regex(START_YMD_END).name("foo").build().unwrap();

    assert!(pattern.check("IMG-20230229-smth.jpb").is_none());
}

#[test]
fn pattern_match_ymd_hms_rest() {
    let pattern = Pattern::builder()
        .regex(
            r"
                (?<year>\d{4})
                (?<month>\d{2})
                (?<day>\d{2})
                -
                (?<hour>\d{2})
                (?<min>\d{2})
                (?<sec>\d{2})
                -
                (?<rest>.+)
                ",
        )
        .name("test")
        .format(DEFAULT_DATE_TIME_FORMAT)
        .build()
        .unwrap();

    let replacement = pattern.check("20231028-235959-almost midnight.jpg").unwrap();

    assert_eq!(String::from("2023-10-28 23h59m59 almost midnight"), replacement.new_file_stem);

    // Invalid date time
    assert!(pattern.check("20230229-256929-whatever.jpg").is_none());
}

#[test]
fn pattern_match_ymd_hms() {
    let pattern = Pattern::builder()
        .regex(
            r"
                .+
                -
                (?<year>\d{4})
                (?<month>\d{2})
                (?<day>\d{2})
                -
                (?<hour>\d{2})
                (?<min>\d{2})
                (?<sec>\d{2})
                -
                (?<rest>.+)
                ",
        )
        .name("ymd_hms")
        .build()
        .unwrap();

    let replacement = pattern.check("skfljdlks-20231028-235959-almost midnight.jpg").unwrap();

    assert_eq!(String::from("2023-10-28 almost midnight"), replacement.new_file_stem);
}

#[test]
fn pattern_keeps_parent_and_extension() {
    let pattern = Pattern::builder().regex(START_YMD_END).name("foo").build().unwrap();
    let replacement = pattern.check("/photos/IMG-20231028-whatever.jpg").unwrap();
    assert_eq!("/photos", replacement.parent);
    assert_eq!("IMG-20231028-whatever", replacement.file_stem);
    assert_eq!(Some(String::from("jpg")), replacement.extension);
    assert_eq!("/photos/2023-10-28 IMG whatever.jpg", replacement.new_path());
}

#[test]
fn pattern_without_date_group_gives_nothing() {
    let pattern = Pattern::builder().regex(".+").name("foo").build().unwrap();
    assert!(pattern.check("/a/b.c").is_none());
}

#[test]
fn pattern_accessors() {
    let pattern = Pattern::builder()
        .regex(".+")
        .name("foo")
        .delimiter("_")
        .format("%Y")
        .time(true)
        .build()
        .unwrap();
    assert_eq!("foo", pattern.name());
    assert_eq!("_", pattern.delimiter());
    assert_eq!("%Y", pattern.date_format());
    assert!(pattern.time());
    assert!(!pattern.auto_accept());
}

#[test]
fn pattern_builder_default_format() {
    let builder = Pattern::builder();
    assert_eq!(DEFAULT_DATE_FORMAT, builder.format);
    assert_eq!(None, builder.name);
}

#[test]
fn empty_map() {
    let table = ConfigTable::new();
    assert!(Pattern::deserialize("foo", &table, "").is_none());
}

#[test]
fn without_regex() {
    let mut table = ConfigTable::new();
    table.insert("delimiter".into(), string("foo"));

    assert!(Pattern::deserialize("foo", &table, "").is_none());
}

#[test]
fn invalid_regex() {
    let mut table = ConfigTable::new();
    table.insert("regex".into(), string("(("));

    assert!(Pattern::deserialize("foo", &table, "").is_none());
}

#[test]
fn simple() {
    let mut table = ConfigTable::new();
    table.insert("regex".into(), string(".+"));

    let pattern = Pattern::deserialize("foo", &table, "").unwrap();

    assert_eq!("foo", pattern.name());
    assert_eq!(" ", pattern.delimiter());
}

#[test]
fn with_format() {
    let mut table = ConfigTable::new();
    table.insert("regex".into(), string(".+"));
    table.insert("format".into(), string("%Y-%m-%d %Hh%M"));

    let pattern = Pattern::deserialize("bar", &table, "").unwrap();

    assert_eq!("bar", pattern.name());
    assert_eq!("%Y-%m-%d %Hh%M", pattern.date_format());
}

#[test]
fn with_delimiter() {
    let mut table = ConfigTable::new();
    table.insert("regex".into(), string(".+"));
    table.insert("delimiter".into(), string(".+"));

    let pattern = Pattern::deserialize("foo", &table, "").unwrap();

    assert_eq!("foo", pattern.name());
    assert_eq!(".+", pattern.delimiter());
}

#[test]
fn deserialize_time_and_default_format() {
    let mut table = ConfigTable::new();
    table.insert("regex".into(), string(".+"));
    table.insert("time".into(), ConfigValue::Boolean(true));
    table.insert("delimiter".into(), ConfigValue::Boolean(true));

    let pattern = Pattern::deserialize("foo", &table, "%d").unwrap();
    assert!(pattern.time());
    assert_eq!("%d", pattern.date_format());
    assert_eq!(" ", pattern.delimiter());
}

#[test]
fn predetermined_date_matcher() {
    let matcher = PredeterminedDate {
        date_time: date(2023, 10, 31),
        format: String::from(DEFAULT_DATE_TIME_FORMAT),
        ..PredeterminedDate::default()
    };

    let replacement = matcher.check("foo.bar").unwrap();
    assert_eq!(String::from("2023-10-31 00h00m00 foo.bar"), replacement.new_path());
}

#[test]
fn predetermined_date_accessors() {
    let matcher = PredeterminedDate::new("%Y");
    assert_eq!(TODAY, matcher.name());
    assert_eq!(TODAY, When::Today.name());
    assert_eq!(" ", matcher.delimiter());
    assert_eq!("%Y", matcher.date_format());
    assert!(matcher.auto_accept());
    assert_eq!(DEFAULT_DATE_FORMAT, PredeterminedDate::default().date_format());
}

#[test]
fn metadata_check() {
    let created = Metadata::new_created("%Y-%m-%d %Hh%Mm%S", true);
    let modified = Metadata::new_modified("%Y-%m-%d %Hh%Mm%S", true);
    let path = "/tmp/foo";

    assert!(created.check(path, Some(date_time(2024, 1, 20, 10, 0, 0))).is_some());

    let result_1 = modified.check(path, Some(date_time(2024, 1, 20, 10, 0, 0)));
    assert!(result_1.is_some());

    let result_2 = modified.check(path, Some(date_time(2024, 1, 20, 10, 0, 1)));
    assert!(result_2.is_some());

    assert_ne!(result_1.unwrap().new_file_stem, result_2.unwrap().new_file_stem);
}

#[test]
fn metadata_check_prefixes_by_the_time() {
    let created = Metadata::new_created(DEFAULT_DATE_TIME_FORMAT, true);
    let replacement = created.check("/tmp/foo.txt", Some(date_time(2024, 1, 20, 10, 5, 7))).unwrap();
    assert_eq!("2024-01-20 10h05m07 foo", replacement.new_file_stem);
    assert_eq!("/tmp/2024-01-20 10h05m07 foo.txt", replacement.new_path());
}

#[test]
fn check_unexisting_path() {
    assert!(Metadata::new_created("foo", true).check("foo", None).is_none());
}

#[test]
fn name() {
    assert_eq!("created", Metadata::new_created("foo", true).name());
    assert_eq!("modified", Metadata::new_modified("foo", true).name());
    assert_eq!(CREATED, Kind::Created.name());
    assert_eq!(MODIFIED, Kind::Modified.name());
    assert_eq!("modified", Metadata::new(Kind::Modified, "foo", true).name());
}

#[test]
fn delimiter() {
    assert_eq!(" ", Metadata::new_created("foo", true).delimiter());
}

#[test]
fn date_format() {
    assert_eq!("foo", Metadata::new_created("foo", true).date_format());
    assert_eq!("%Y-%m-%d", Metadata::new_created("%Y-%m-%d", true).date_format());
}

#[test]
fn metadata_time() {
    assert_eq!(true, Metadata::new_created("foo", true).time());
    assert_eq!(false, Metadata::new_created("foo", false).time());
}

#[test]
fn matcher_dispatches_by_kind() {
    let facts = PathFacts {
        exists: true,
        created: Some(date(2020, 2, 29)),
        modified: Some(date(2021, 3, 1)),
        parent: None,
    };
    let created = Matcher::Metadata(Metadata::new_created("%Y-%m-%d", false));
    let modified = Matcher::Metadata(Metadata::new_modified("%Y-%m-%d", false));
    assert_eq!("2020-02-29 a", created.check("/x/a", &facts).unwrap().new_file_stem);
    assert_eq!("2021-03-01 a", modified.check("/x/a", &facts).unwrap().new_file_stem);
    assert_eq!("created", created.name());
    assert!(!created.auto_accept());
}

#[test]
fn local_date_time_refuses_invalid_dates() {
    assert!(LocalDateTime::local(2023, 2, 29, 0, 0, 0).is_none());
    assert!(LocalDateTime::local(2024, 2, 29, 0, 0, 0).is_some());
    assert!(LocalDateTime::local(2024, 13, 1, 0, 0, 0).is_none());
    assert!(LocalDateTime::local(2024, 1, 1, 24, 0, 0).is_none());
}

#[test]
fn local_date_time_formats() {
    let dt = date_time(2023, 10, 28, 23, 59, 59);
    assert_eq!(Some(String::from("2023-10-28")), dt.format(DEFAULT_DATE_FORMAT));
    assert_eq!(Some(String::from("2023-10-28 23h59m59")), dt.format(DEFAULT_DATE_TIME_FORMAT));
}

#[test]
fn auto_accept_matcher_is_confirmed() {
    let processing_matcher = ProcessingMatcher::from(Matcher::PredeterminedDate(PredeterminedDate::default()));

    assert!(processing_matcher.confirmed());
}

#[test]
fn confirm() {
    let mut processing_matcher = ProcessingMatcher::from(Matcher::Pattern(Pattern::default()));

    assert!(!processing_matcher.confirmed());
    processing_matcher.confirm();
    assert!(processing_matcher.confirmed());
}

#[test]
fn ignore() {
    let mut processing_matcher = ProcessingMatcher::from(Matcher::Pattern(Pattern::default()));

    assert!(!processing_matcher.ignored());
    processing_matcher.ignore();
    assert!(processing_matcher.ignored());
}

#[test]
fn matcher_check() {
    let processing_matcher = ProcessingMatcher::from(Matcher::Pattern(Pattern::default()));
    let facts = PathFacts { exists: true, created: None, modified: None, parent: None };

    assert!(processing_matcher.check("foo", &facts).is_none());
}

#[test]
fn pattern_rename_with_a_resolved_date() {
    let pattern = Pattern::builder().regex(START_YMD_END).name("foo").build().unwrap();
    let replacement = Replacement::try_from("/p/IMG-20231028-whatever.jpg").unwrap();
    let renamed = pattern.rename(replacement, &date(2020, 2, 29)).unwrap();
    assert_eq!("2020-02-29 IMG whatever", renamed.new_file_stem);
    assert_eq!("/p/2020-02-29 IMG whatever.jpg", renamed.new_path());
}

#[test]
fn matcher_check_by_today_always_renames() {
    let matcher = Matcher::PredeterminedDate(PredeterminedDate { date_time: date(2023, 10, 31), ..PredeterminedDate::default() });
    let facts = PathFacts { exists: true, created: None, modified: None, parent: None };
    assert_eq!("2023-10-31 foo", matcher.check("/x/foo.txt", &facts).unwrap().new_file_stem);
    assert!(Matcher::Metadata(Metadata::new_created("%Y", false)).check("/x/foo", &facts).is_none());
}

#[test]
fn matcher_check_renames_in_the_directory_found_on_disk() {
    let matcher = Matcher::PredeterminedDate(PredeterminedDate { date_time: date(2023, 10, 31), ..PredeterminedDate::default() });
    let facts = PathFacts { exists: true, created: None, modified: None, parent: Some(String::from("/real/dir")) };
    let renamed = matcher.check("/link/foo.txt", &facts).unwrap();
    assert_eq!("/real/dir", renamed.parent);
    assert_eq!("/real/dir/foo.txt", renamed.path());
    assert_eq!("/real/dir/2023-10-31 foo.txt", renamed.new_path());
}

#[test]
fn pick_resolution_prefers_the_date_as_read() {
    let direct = Some(date(2023, 1, 2));
    let swapped = Some(date(2023, 2, 1));
    assert_eq!(direct, pick_resolution(direct, swapped));
    assert_eq!(swapped, pick_resolution(None, swapped));
    assert_eq!(None, pick_resolution(None, None));
}

#[test]
fn determine_and_finish_with_a_given_date() {
    let pattern = Pattern::builder().regex(START_YMD_END).name("foo").build().unwrap();
    let rep = Replacement::try_from("/p/IMG-20231028-whatever.jpg").unwrap();
    let (kept, dt) = pattern.determine_with(&rep, Some(date(2001, 2, 3))).unwrap();
    assert_eq!("IMG whatever", kept);
    assert_eq!(date(2001, 2, 3), dt);
    assert!(pattern.determine_with(&rep, None).is_none());
    let plain = Replacement::try_from("/p/nothing.jpg").unwrap();
    assert!(pattern.determine_with(&plain, Some(date(2001, 2, 3))).is_none());

    assert_eq!(
        "2001-02-03 IMG whatever",
        pattern.finish_check(rep.clone(), Some(date(2001, 2, 3))).unwrap().new_file_stem
    );
    assert!(pattern.finish_check(rep, None).is_none());
}

#[test]
fn resolve_reads_the_date_as_written_first() {
    let pattern = Pattern::builder().regex(START_YMD_END).name("foo").build().unwrap();
    let fields = pattern.fields("IMG-20230102-x").unwrap();
    let dt = fields.resolve().unwrap();
    assert_eq!((1, 2), (dt.month, dt.day));
}

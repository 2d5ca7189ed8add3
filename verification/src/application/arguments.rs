//! Settings of a run, from the configuration file and the command line.
//!
//! The configuration file is read first, then the command line overrides
//! what it sets.

use vstd::prelude::*;

use crate::application::cli::{Interactive, Metadata};
use crate::application::error::Error;
use crate::config::{parse_config, toml_document, toml_parse_error, toml_parses, value_bool, value_str, ConfigTable, ConfigValue};
use crate::text::{concat2, owned};

verus! {

/// The date format of prefixes without a time.
pub const DEFAULT_DATE_FORMAT: &'static str = "%Y-%m-%d";

/// The date format of prefixes with a time.
pub const DEFAULT_DATE_TIME_FORMAT: &'static str = "%Y-%m-%d %Hh%Mm%S";

/// The table under `key`, if there is one.
pub open spec fn sub_table(table: ConfigTable, key: Seq<char>) -> Option<ConfigTable> {
    match table.spec_get(key) {
        Some(ConfigValue::Table(t)) => Some(t),
        _ => None,
    }
}

/// The boolean under `key`, or `fallback` when there is none.
pub open spec fn bool_or(table: ConfigTable, key: Seq<char>, fallback: bool) -> bool {
    match value_bool(table.spec_get(key)) {
        Some(b) => b,
        None => fallback,
    }
}

/// The string under `key`, or `fallback` when there is none.
pub open spec fn str_or(table: ConfigTable, key: Seq<char>, fallback: Seq<char>) -> Seq<char> {
    match value_str(table.spec_get(key)) {
        Some(s) => s,
        None => fallback,
    }
}

/// The times that a `metadata` table enables: both when both `created` and
/// `modified` are true, else the one that is, else neither.
pub open spec fn metadata_from(table: ConfigTable) -> Metadata {
    let created = value_bool(table.spec_get("created"@));
    let modified = value_bool(table.spec_get("modified"@));
    if created == Some(true) && modified == Some(true) {
        Metadata::Both
    } else if created == Some(true) {
        Metadata::Created
    } else if modified == Some(true) {
        Metadata::Modified
    } else {
        Metadata::Neither
    }
}

/// The settings of a run.
#[derive(Debug)]
pub struct Arguments {
    /// How the user is asked.
    pub interactive: Interactive,
    /// Whether prefixes carry the time as well as the date.
    pub time: bool,
    /// The date format of prefixes without a time.
    pub default_date_format: String,
    /// The date format of prefixes with a time.
    pub default_date_time_format: String,
    /// Whether today's date may prefix a file.
    pub today: bool,
    /// Which times of a file may prefix it.
    pub metadata: Metadata,
    /// The table of pattern matchers, by name.
    pub patterns: Option<ConfigTable>,
    /// What went wrong while the settings were read, oldest first.
    pub init_errors: Vec<Error>,
    /// The paths to process.
    pub paths: Vec<String>,
}

impl Default for Arguments {
    fn default() -> (res: Self)
        ensures
            res.interactive is Off,
            !res.time,
            res.default_date_format@ == DEFAULT_DATE_FORMAT@,
            res.default_date_time_format@ == DEFAULT_DATE_TIME_FORMAT@,
            !res.today,
            res.metadata is Neither,
            res.patterns is None,
            res.init_errors@.len() == 0,
            res.paths@.len() == 0,
    {
        Arguments {
            interactive: Interactive::Off,
            time: false,
            default_date_format: owned(DEFAULT_DATE_FORMAT),
            default_date_time_format: owned(DEFAULT_DATE_TIME_FORMAT),
            today: false,
            metadata: Metadata::Neither,
            patterns: None,
            init_errors: Vec::new(),
            paths: Vec::new(),
        }
    }
}

impl Arguments {
    /// The date format of prefixes, with or without a time as the settings
    /// say.
    pub open spec fn spec_default_format(&self) -> Seq<char> {
        if self.time {
            self.default_date_time_format@
        } else {
            self.default_date_format@
        }
    }

    /// How the user is asked.
    pub fn interactive(&self) -> (res: Interactive)
        ensures
            res == self.interactive,
    {
        self.interactive
    }

    /// Whether prefixes carry the time as well as the date.
    pub fn time(&self) -> (res: bool)
        ensures
            res == self.time,
    {
        self.time
    }

    /// The date format of prefixes.
    pub fn default_format(&self) -> (res: &str)
        ensures
            res@ == self.spec_default_format(),
    {
        if self.time {
            self.default_date_time_format.as_str()
        } else {
            self.default_date_format.as_str()
        }
    }

    /// Whether today's date may prefix a file.
    pub fn today(&self) -> (res: bool)
        ensures
            res == self.today,
    {
        self.today
    }

    /// Which times of a file may prefix it.
    pub fn metadata(&self) -> (res: Metadata)
        ensures
            res == self.metadata,
    {
        self.metadata
    }

    /// The paths to process.
    pub fn paths(&self) -> (res: &[String])
        ensures
            res@ == self.paths@,
    {
        self.paths.as_slice()
    }

    /// Applies what the command line says: the time preference and the
    /// metadata choice when given, and whether today's date is used.
    pub fn apply_cli(&mut self, time: Option<bool>, metadata: Option<Metadata>, today: bool)
        ensures
            final(self).time == (match time {
                Some(t) => t,
                None => old(self).time,
            }),
            final(self).metadata == (match metadata {
                Some(m) => m,
                None => old(self).metadata,
            }),
            final(self).today == today,
            final(self).interactive == old(self).interactive,
            final(self).default_date_format == old(self).default_date_format,
            final(self).default_date_time_format == old(self).default_date_time_format,
            final(self).patterns == old(self).patterns,
            final(self).init_errors == old(self).init_errors,
            final(self).paths == old(self).paths,
    {
        if let Some(t) = time {
            self.time = t;
        }
        if let Some(m) = metadata {
            self.metadata = m;
        }
        self.today = today;
    }

    /// Whether `post` is `pre` after the configuration table `table` is
    /// applied: see `apply_config_table`.
    pub open spec fn configured(pre: Arguments, table: ConfigTable, post: Arguments) -> bool {
        &&& (post.time == bool_or(table, "time"@, pre.time))
        &&& (post.default_date_format@ == (match sub_table(table, "default_format"@) {
                Some(f) => str_or(f, "date"@, pre.default_date_format@),
                None => pre.default_date_format@,
            }))
        &&& (post.default_date_time_format@ == (match sub_table(table, "default_format"@) {
                Some(f) => str_or(f, "date_time"@, pre.default_date_time_format@),
                None => pre.default_date_time_format@,
            }))
        &&& (post.today == (match sub_table(table, "matchers"@) {
                Some(m) => match sub_table(m, "predetermined_date"@) {
                    Some(p) => bool_or(p, "today"@, pre.today),
                    None => pre.today,
                },
                None => pre.today,
            }))
        &&& (post.patterns == (match sub_table(table, "matchers"@) {
                Some(m) => match sub_table(m, "patterns"@) {
                    Some(p) => Some(p),
                    None => pre.patterns,
                },
                None => pre.patterns,
            }))
        &&& (match sub_table(table, "matchers"@) {
                Some(m) => match sub_table(m, "metadata"@) {
                    Some(md) => if pre.metadata is Neither {
                        &&& post.metadata == metadata_from(md)
                        &&& post.init_errors@ =~= pre.init_errors@
                    } else {
                        &&& post.metadata == pre.metadata
                        &&& post.init_errors@.len() == pre.init_errors@.len() + 1
                        &&& post.init_errors@.take(pre.init_errors@.len() as int)
                            =~= pre.init_errors@
                        &&& post.init_errors@.last() matches Error::Custom(s) && s@
                            == "Unexpected metadata state on parse_config: "@ + (match pre.metadata {
                            Metadata::Neither => "None"@,
                            Metadata::Created => "Created"@,
                            Metadata::Modified => "Modified"@,
                            Metadata::Both => "Both"@,
                        })
                    },
                    None => post.metadata == pre.metadata && post.init_errors@
                        =~= pre.init_errors@,
                },
                None => post.metadata == pre.metadata && post.init_errors@
                    =~= pre.init_errors@,
            })
        &&& (post.interactive == pre.interactive)
        &&& (post.paths == pre.paths)
    }

    /// Whether `post` is `pre` with one more error, whose message is
    /// `message`, and every setting kept.
    pub open spec fn with_error(pre: Arguments, post: Arguments, message: Seq<char>) -> bool {
        &&& post.interactive == pre.interactive
        &&& post.time == pre.time
        &&& post.default_date_format == pre.default_date_format
        &&& post.default_date_time_format == pre.default_date_time_format
        &&& post.today == pre.today
        &&& post.metadata == pre.metadata
        &&& post.patterns == pre.patterns
        &&& post.paths == pre.paths
        &&& post.init_errors@.len() == pre.init_errors@.len() + 1
        &&& post.init_errors@.take(pre.init_errors@.len() as int) =~= pre.init_errors@
        &&& post.init_errors@.last() matches Error::Custom(m) && m@ == message
    }

    /// Applies the configuration file, given as what reading it gave: its
    /// text, or the error of the read. An error of the read, or a text that
    /// is not TOML, is recorded and changes no setting; a TOML text is
    /// applied as `apply_config_table` says.
    pub fn apply_config_source(&mut self, source: Result<String, String>)
        ensures
            match source {
                Err(e) => Arguments::with_error(*old(self), *final(self), "Unable to read config file: "@ + e@),
                Ok(c) => if toml_parses(c@) {
                    exists|t: ConfigTable|
                        t.spec_view() == toml_document(c@) && t.keys_distinct() && #[trigger] Arguments::configured(
                            *old(self),
                            t,
                            *final(self),
                        )
                } else {
                    Arguments::with_error(
                        *old(self),
                        *final(self),
                        "Unable to parse config file: "@ + toml_parse_error(c@),
                    )
                },
            },
    {
        match source {
            Err(error) => {
                let message = concat2("Unable to read config file: ", error.as_str());
                self.init_errors.push(Error::Custom(message));
            },
            Ok(content) => match parse_config(content.as_str()) {
                Ok(table) => {
                    let ghost t = table;
                    self.apply_config_table(table);
                    assert(t.spec_view() == toml_document(content@) && t.keys_distinct() && Arguments::configured(
                        *old(self),
                        t,
                        *self,
                    ));
                },
                Err(error) => {
                    let message = concat2("Unable to parse config file: ", error.as_str());
                    self.init_errors.push(Error::Custom(message));
                },
            },
        }
    }

    /// Applies what the configuration file says.
    ///
    /// `time` sets the time preference; the table `default_format` may set
    /// the formats `date` and `date_time`; the table `matchers` may hold a
    /// table `predetermined_date` whose `today` enables today's date, a
    /// table `metadata` whose `created` and `modified` enable the times of
    /// the file, and the table `patterns`. Entries of another kind than
    /// expected count as absent. Metadata are only read while no time is
    /// enabled yet; otherwise an error is recorded.
    pub fn apply_config_table(&mut self, config_table: ConfigTable)
        ensures
            Arguments::configured(*old(self), config_table, *final(self)),
    {
        proof {
            reveal_strlit("default_format");
            reveal_strlit("matchers");
            reveal_strlit("predetermined_date");
            reveal_strlit("metadata");
            reveal_strlit("patterns");
        }
        let mut config_table = config_table;
        if let Some(value) = config_table.get_bool("time") {
            self.time = value;
        }
        if let Some(ConfigValue::Table(formats)) = config_table.remove("default_format") {
            if let Some(format) = formats.get_str("date") {
                self.default_date_format = format;
            }
            if let Some(format) = formats.get_str("date_time") {
                self.default_date_time_format = format;
            }
        }
        assert("matchers"@.len() != "default_format"@.len());
        assert("predetermined_date"@.len() != "metadata"@.len());
        assert("predetermined_date"@.len() != "patterns"@.len());
        assert("metadata"@[0] != "patterns"@[0]);
        if let Some(ConfigValue::Table(mut matchers)) = config_table.remove("matchers") {
            if let Some(ConfigValue::Table(predet)) = matchers.remove("predetermined_date") {
                if let Some(today) = predet.get_bool("today") {
                    self.today = today;
                }
            }
            if let Some(ConfigValue::Table(metadata)) = matchers.remove("metadata") {
                let created = metadata.get_bool("created");
                let modified = metadata.get_bool("modified");
                if matches!(self.metadata, Metadata::Neither) {
                    if created == Some(true) && modified == Some(true) {
                        self.metadata = Metadata::Both;
                    } else if created == Some(true) {
                        self.metadata = Metadata::Created;
                    } else if modified == Some(true) {
                        self.metadata = Metadata::Modified;
                    }
                } else {
                    let message = concat2(
                        "Unexpected metadata state on parse_config: ",
                        self.metadata.debug_name(),
                    );
                    self.init_errors.push(Error::Custom(message));
                }
            }
            if let Some(ConfigValue::Table(patterns)) = matchers.remove("patterns") {
                self.patterns = Some(patterns);
            }
        }
    }
}

} // verus!

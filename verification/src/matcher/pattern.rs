//! Matching file stems against a regular expression with named groups for
//! the date (`year`, `month`, `day`, and optionally `hour`, `min`, `sec`) and
//! for the text to keep (`start`, `end`, `rest`).

use vstd::prelude::*;

use crate::application::arguments::DEFAULT_DATE_FORMAT;
use crate::config::{value_bool, value_str, ConfigTable};
use crate::matcher::date_time::{local_outcome, valid_fields, LocalDateTime};
use crate::matcher::number::{parse_i32, parse_u32, spec_parse_i32, spec_parse_u32};
use crate::replacement::{opt_view, rep_view_opt, Replacement, ReplacementView};
use crate::text::{concat3, owned};

verus! {

/// Whether `source` compiles as a regular expression in which whitespace is
/// ignored (the `x` flag of the `regex` crate).
pub uninterp spec fn regex_valid(source: Seq<char>) -> bool;

/// The text that the group named `group` captures in the first match of the
/// regular expression `source` (whitespace ignored) in `text`; `None` when
/// the expression does not compile, does not match, or the group does not
/// take part in the match.
pub uninterp spec fn regex_named_group(source: Seq<char>, text: Seq<char>, group: Seq<char>) -> Option<Seq<char>>;

/// `RegexBuilder::new(source).ignore_whitespace(true).build().is_ok()`.
#[verifier::external_body]
fn regex_compiles(source: &str) -> (res: bool)
    ensures
        res == regex_valid(source@),
{
    regex::RegexBuilder::new(source).ignore_whitespace(true).build().is_ok()
}

/// `Regex::captures` of `text`, then `Captures::name(group)`, as a `String`.
#[verifier::external_body]
fn regex_capture(source: &str, text: &str, group: &str) -> (res: Option<String>)
    ensures
        opt_view(res) == regex_named_group(source@, text@, group@),
{
    let regex = regex::RegexBuilder::new(source).ignore_whitespace(true).build().ok()?;
    let captures = regex.captures(text)?;
    captures.name(group).map(|m| m.as_str().to_string())
}

/// The date and time fields that a match gives.
pub struct MatchedDateTime {
    pub year: i32,
    pub month: u32,
    pub day: u32,
    pub hour: u32,
    pub min: u32,
    pub sec: u32,
}

/// Joins the texts of `elements` with `delimiter` between them.
pub open spec fn join_with(elements: Seq<Seq<char>>, delimiter: Seq<char>) -> Seq<char>
    decreases elements.len(),
{
    if elements.len() == 0 {
        Seq::empty()
    } else if elements.len() == 1 {
        elements[0]
    } else {
        join_with(elements.drop_last(), delimiter) + delimiter + elements.last()
    }
}

/// A one-element sequence of `o`'s value, or the empty sequence.
pub open spec fn opt_seq(o: Option<Seq<char>>) -> Seq<Seq<char>> {
    match o {
        Some(s) => seq![s],
        None => Seq::empty(),
    }
}

/// Matches file stems against a regular expression.
#[derive(Debug, Clone)]
pub struct Pattern {
    /// The regular expression, whitespace ignored.
    pub regex: String,
    /// The date format of the prefix.
    pub format: String,
    pub name: String,
    /// What separates the date from the kept text, and the kept texts.
    pub delimiter: String,
    /// Whether the pattern is meant for dates with a time.
    pub time: bool,
}

/// Collects the parts of a `Pattern`.
#[derive(Debug)]
pub struct PatternBuilder {
    pub regex: String,
    pub format: String,
    pub name: Option<String>,
    pub delimiter: Option<String>,
    pub time: Option<bool>,
}

impl Pattern {
    /// The text of the group named `group` in the match of `stem`.
    pub open spec fn spec_group(&self, stem: Seq<char>, group: Seq<char>) -> Option<Seq<char>> {
        regex_named_group(self.regex@, stem, group)
    }

    /// The value of an optional number group, 0 when absent or unreadable.
    pub open spec fn spec_time_part(&self, stem: Seq<char>, group: Seq<char>) -> u32 {
        match self.spec_group(stem, group) {
            Some(t) => match spec_parse_u32(t) {
                Some(v) => v,
                None => 0,
            },
            None => 0,
        }
    }

    /// The date and time fields that `stem` gives: `None` unless the year,
    /// month and day groups are there and read as numbers.
    pub open spec fn spec_fields(&self, stem: Seq<char>) -> Option<(i32, u32, u32, u32, u32, u32)> {
        let year = match self.spec_group(stem, "year"@) {
            Some(t) => spec_parse_i32(t),
            None => None,
        };
        let month = match self.spec_group(stem, "month"@) {
            Some(t) => spec_parse_u32(t),
            None => None,
        };
        let day = match self.spec_group(stem, "day"@) {
            Some(t) => spec_parse_u32(t),
            None => None,
        };
        match (year, month, day) {
            (Some(y), Some(m), Some(d)) => Some(
                (
                    y,
                    m,
                    d,
                    self.spec_time_part(stem, "hour"@),
                    self.spec_time_part(stem, "min"@),
                    self.spec_time_part(stem, "sec"@),
                ),
            ),
            _ => None,
        }
    }

    /// The kept text of `stem`: `start` (then `end` if `start` is there) and
    /// `rest`, joined by the delimiter.
    pub open spec fn spec_kept(&self, stem: Seq<char>) -> Seq<char> {
        let start = self.spec_group(stem, "start"@);
        let firsts = match start {
            Some(s) => seq![s] + opt_seq(self.spec_group(stem, "end"@)),
            None => Seq::empty(),
        };
        join_with(firsts + opt_seq(self.spec_group(stem, "rest"@)), self.delimiter@)
    }

    /// Whether `dt` is a resolution of the fields `f`: the local date and time
    /// with these fields, or, with month and day swapped, the one of the
    /// swapped fields.
    pub open spec fn resolves(f: (i32, u32, u32, u32, u32, u32), dt: LocalDateTime) -> bool {
        dt.is_valid() && (dt.has_fields(f.0, f.1, f.2, f.3, f.4, f.5) || dt.has_fields(f.0, f.2, f.1, f.3, f.4, f.5))
    }

    /// Whether neither the fields nor the fields with month and day swapped
    /// name a valid date and time.
    pub open spec fn unresolvable(f: (i32, u32, u32, u32, u32, u32)) -> bool {
        !valid_fields(f.0 as int, f.1 as int, f.2 as int, f.3 as int, f.4 as int, f.5 as int)
            && !valid_fields(f.0 as int, f.2 as int, f.1 as int, f.3 as int, f.4 as int, f.5 as int)
    }

    /// What resolving the fields `f` gives, from what the local time zone
    /// gives for them as read (`direct`) and with month and day swapped
    /// (`swapped`): the reading as written wins when there is one.
    pub open spec fn spec_pick(direct: Option<LocalDateTime>, swapped: Option<LocalDateTime>) -> Option<LocalDateTime> {
        if direct is Some {
            direct
        } else {
            swapped
        }
    }

    /// Whether `o` may be what resolving the fields `f` gives: the local date
    /// and time with the fields as read when the time zone has one, else the
    /// one with month and day swapped.
    pub open spec fn resolution(f: (i32, u32, u32, u32, u32, u32), o: Option<LocalDateTime>) -> bool {
        exists|direct: Option<LocalDateTime>, swapped: Option<LocalDateTime>|
            #![trigger local_outcome(direct, f.0, f.1, f.2, f.3, f.4, f.5), local_outcome(swapped, f.0, f.2, f.1, f.3, f.4, f.5)]
            local_outcome(direct, f.0, f.1, f.2, f.3, f.4, f.5) && local_outcome(swapped, f.0, f.2, f.1, f.3, f.4, f.5)
                && o == Self::spec_pick(direct, swapped)
    }

    /// Whether `resolved` may be what resolving the date fields of `stem`
    /// gives (anything when the stem gives none).
    pub open spec fn resolved_for(&self, stem: Seq<char>, resolved: Option<LocalDateTime>) -> bool {
        match self.spec_fields(stem) {
            Some(f) => Self::resolution(f, resolved),
            None => true,
        }
    }

    /// The kept text and the date of `stem` once its date fields resolved
    /// to `resolved`: nothing without fields or without a date.
    pub open spec fn spec_determined(&self, stem: Seq<char>, resolved: Option<LocalDateTime>) -> Option<(Seq<char>, LocalDateTime)> {
        match (self.spec_fields(stem), resolved) {
            (Some(_), Some(dt)) => Some((self.spec_kept(stem), dt)),
            _ => None,
        }
    }

    /// The rename of `base` once its date is `dt`: the stem becomes `dt`
    /// printed under the format, the delimiter, and the kept text; nothing
    /// when the format cannot be printed.
    pub open spec fn spec_rename(&self, base: ReplacementView, dt: LocalDateTime) -> Option<ReplacementView> {
        match dt.spec_format(self.format@) {
            Some(date) => Some(ReplacementView {
                new_file_stem: date + self.delimiter@ + self.spec_kept(base.file_stem),
                ..base
            }),
            None => None,
        }
    }

    /// Whether `resolved` may be what resolving the date of the file stem
    /// of `path` gives.
    pub open spec fn resolved_for_path(&self, path: Seq<char>, resolved: Option<LocalDateTime>) -> bool {
        match Replacement::spec_try_from(path) {
            Ok(base) => self.resolved_for(base.file_stem, resolved),
            Err(_) => true,
        }
    }

    /// The rename that this pattern gives for `path` once the date of its
    /// stem resolved to `resolved`.
    pub open spec fn spec_check_with(&self, path: Seq<char>, resolved: Option<LocalDateTime>) -> Option<ReplacementView> {
        match Replacement::spec_try_from(path) {
            Ok(base) => match self.spec_determined(base.file_stem, resolved) {
                Some((_, dt)) => self.spec_rename(base, dt),
                None => None,
            },
            Err(_) => None,
        }
    }

    /// Whether `r` is a rename that this pattern may give for `path`, the date
    /// resolved in the local time zone.
    pub open spec fn spec_outcome(&self, path: Seq<char>, r: ReplacementView) -> bool {
        exists|resolved: Option<LocalDateTime>|
            self.resolved_for_path(path, resolved) && #[trigger] self.spec_check_with(path, resolved) == Some(r)
    }

    /// Whether this pattern surely gives no rename for `path`.
    pub open spec fn spec_no_outcome(&self, path: Seq<char>) -> bool {
        match Replacement::spec_try_from(path) {
            Ok(base) => match self.spec_fields(base.file_stem) {
                Some(f) => Self::unresolvable(f),
                None => true,
            },
            Err(_) => true,
        }
    }

    /// Whether a table describes a pattern: it holds a regular expression,
    /// and it compiles.
    pub open spec fn deserializes(table: ConfigTable) -> bool {
        value_str(table.spec_get("regex"@)) is Some && regex_valid(value_str(table.spec_get("regex"@))->0)
    }

    /// Whether `p` is the pattern that `table` describes under the name
    /// `name`: its regular expression, its delimiter (a space by default),
    /// its time flag (false by default) and its format (`default_format` by
    /// default).
    pub open spec fn deserialized(name: Seq<char>, table: ConfigTable, default_format: Seq<char>, p: Pattern) -> bool {
        &&& p.regex@ == value_str(table.spec_get("regex"@))->0
        &&& p.name@ == name
        &&& p.delimiter@ == (match value_str(table.spec_get("delimiter"@)) {
            Some(d) => d,
            None => seq![' '],
        })
        &&& p.time == (match value_bool(table.spec_get("time"@)) {
            Some(t) => t,
            None => false,
        })
        &&& p.format@ == (match value_str(table.spec_get("format"@)) {
            Some(f) => f,
            None => default_format,
        })
    }

    /// A builder with the default date format and nothing else set.
    pub fn builder() -> (res: PatternBuilder)
        ensures
            res.regex@.len() == 0,
            res.format@ == DEFAULT_DATE_FORMAT@,
            res.name is None,
            res.delimiter is None,
            res.time is None,
    {
        PatternBuilder::default()
    }

    /// Builds the pattern that the entries of `table` describe, under the name
    /// `name`; see `PatternBuilder::deserialize`.
    pub fn deserialize(name: &str, table: &ConfigTable, default_format: &str) -> (res: Option<Pattern>)
        ensures
            match res {
                Some(p) => Self::deserializes(*table) && Self::deserialized(name@, *table, default_format@, p),
                None => !Self::deserializes(*table),
            },
    {
        let mut builder = Self::builder();
        builder.deserialize(name, table, default_format)
    }

    /// Whether the pattern is meant for dates with a time.
    pub fn time(&self) -> (res: bool)
        ensures
            res == self.time,
    {
        self.time
    }

    /// The name of the matcher.
    pub fn name(&self) -> (res: &str)
        ensures
            res@ == self.name@,
    {
        self.name.as_str()
    }

    /// What is put between the date and the kept text.
    pub fn delimiter(&self) -> (res: &str)
        ensures
            res@ == self.delimiter@,
    {
        self.delimiter.as_str()
    }

    /// The date format of the prefix.
    pub fn date_format(&self) -> (res: &str)
        ensures
            res@ == self.format@,
    {
        self.format.as_str()
    }

    /// A rename found by a pattern is always confirmed by the user first.
    pub fn auto_accept(&self) -> (res: bool)
        ensures
            !res,
    {
        false
    }

    /// The text of a group in the match of `stem`.
    fn group(&self, stem: &str, group: &str) -> (res: Option<String>)
        ensures
            opt_view(res) == self.spec_group(stem@, group@),
    {
        regex_capture(self.regex.as_str(), stem, group)
    }

    /// The value of an optional number group.
    fn time_part(&self, stem: &str, group: &str) -> (res: u32)
        ensures
            res == self.spec_time_part(stem@, group@),
    {
        match self.group(stem, group) {
            Some(t) => match parse_u32(t.as_str()) {
                Some(v) => v,
                None => 0,
            },
            None => 0,
        }
    }

    /// The date and time fields that `stem` gives.
    pub fn fields(&self, stem: &str) -> (res: Option<MatchedDateTime>)
        ensures
            match (res, self.spec_fields(stem@)) {
                (Some(m), Some(f)) => m.year == f.0 && m.month == f.1 && m.day == f.2 && m.hour == f.3 && m.min == f.4
                    && m.sec == f.5,
                (None, None) => true,
                _ => false,
            },
    {
        let year = match self.group(stem, "year") {
            Some(t) => parse_i32(t.as_str()),
            None => None,
        };
        let month = match self.group(stem, "month") {
            Some(t) => parse_u32(t.as_str()),
            None => None,
        };
        let day = match self.group(stem, "day") {
            Some(t) => parse_u32(t.as_str()),
            None => None,
        };
        match (year, month, day) {
            (Some(year), Some(month), Some(day)) => Some(
                MatchedDateTime {
                    year,
                    month,
                    day,
                    hour: self.time_part(stem, "hour"),
                    min: self.time_part(stem, "min"),
                    sec: self.time_part(stem, "sec"),
                },
            ),
            _ => None,
        }
    }

    /// The kept text of `stem`.
    pub fn kept(&self, stem: &str) -> (res: String)
        ensures
            res@ == self.spec_kept(stem@),
    {
        let mut res = String::new();
        let mut any = false;
        let ghost mut parts: Seq<Seq<char>> = Seq::empty();
        if let Some(start) = self.group(stem, "start") {
            res.append(start.as_str());
            any = true;
            proof {
                parts = seq![start@];
                assert(join_with(parts, self.delimiter@) == start@);
                assert(res@ =~= start@);
            }
            if let Some(end) = self.group(stem, "end") {
                res.append(self.delimiter.as_str());
                res.append(end.as_str());
                proof {
                    let old_parts = parts;
                    parts = parts.push(end@);
                    assert(parts.drop_last() =~= old_parts);
                    assert(join_with(parts, self.delimiter@) == join_with(old_parts, self.delimiter@)
                        + self.delimiter@ + end@);
                }
            }
        }
        assert(res@ == join_with(parts, self.delimiter@));
        assert(any == (parts.len() > 0));
        if let Some(rest) = self.group(stem, "rest") {
            if any {
                res.append(self.delimiter.as_str());
            }
            res.append(rest.as_str());
            proof {
                let old_parts = parts;
                parts = parts.push(rest@);
                assert(parts.drop_last() =~= old_parts);
                if old_parts.len() == 0 {
                    assert(res@ =~= rest@);
                    assert(join_with(parts, self.delimiter@) == rest@);
                } else {
                    assert(join_with(parts, self.delimiter@) == join_with(old_parts, self.delimiter@)
                        + self.delimiter@ + rest@);
                }
            }
        }
        proof {
            let start = self.spec_group(stem@, "start"@);
            let firsts = match start {
                Some(s) => seq![s] + opt_seq(self.spec_group(stem@, "end"@)),
                None => Seq::empty(),
            };
            assert(parts =~= firsts + opt_seq(self.spec_group(stem@, "rest"@)));
        }
        res
    }

    /// The kept text and the date of the stem of `replacement`, once its
    /// date fields resolved to `resolved`: nothing when the stem gives no
    /// date fields or the date did not resolve.
    pub fn determine_with(&self, replacement: &Replacement, resolved: Option<LocalDateTime>) -> (res: Option<(String, LocalDateTime)>)
        ensures
            determined_view(res) == self.spec_determined(replacement.file_stem@, resolved),
    {
        let stem = replacement.file_stem.as_str();
        if self.fields(stem).is_none() {
            return None;
        }
        match resolved {
            Some(dt) => Some((self.kept(stem), dt)),
            None => None,
        }
    }

    /// The determined kept text and date for the rename `replacement`: the
    /// date fields of the stem, resolved in the local time zone as read, or
    /// else with month and day swapped; `None` when the stem gives no date
    /// fields or neither reading resolves.
    pub fn determine(&self, replacement: &Replacement) -> (res: Option<(String, LocalDateTime)>)
        ensures
            exists|resolved: Option<LocalDateTime>|
                self.resolved_for(replacement.file_stem@, resolved) && determined_view(res)
                    == #[trigger] self.spec_determined(replacement.file_stem@, resolved),
            match res {
                Some((kept, dt)) => kept@ == self.spec_kept(replacement.file_stem@) && (self.spec_fields(
                    replacement.file_stem@,
                ) matches Some(f) && Self::resolves(f, dt)),
                None => true,
            },
            self.spec_fields(replacement.file_stem@) is None ==> res is None,
            self.spec_fields(replacement.file_stem@) matches Some(f) && Self::unresolvable(f) ==> res is None,
    {
        let stem = replacement.file_stem.as_str();
        let resolved = match self.fields(stem) {
            Some(m) => m.resolve(),
            None => None,
        };
        let res = self.determine_with(replacement, resolved);
        proof {
            if let Some(f) = self.spec_fields(stem@) {
                lemma_resolution(f, resolved);
            }
            assert(self.spec_determined(stem@, resolved) == determined_view(res));
        }
        res
    }

    /// The rename that this pattern gives for `path`: the stem becomes the
    /// date printed under the format, the delimiter, and the kept text.
    pub fn check(&self, path: &str) -> (res: Option<Replacement>)
        ensures
            exists|resolved: Option<LocalDateTime>|
                self.resolved_for_path(path@, resolved) && rep_view_opt(res) == #[trigger] self.spec_check_with(
                    path@,
                    resolved,
                ),
            match res {
                Some(r) => self.spec_outcome(path@, r@),
                None => true,
            },
            self.spec_no_outcome(path@) ==> res is None,
    {
        let rep = match Replacement::try_from(path) {
            Ok(rep) => rep,
            Err(_) => {
                proof {
                    assert(self.spec_check_with(path@, None) is None);
                }
                return None;
            },
        };
        let ghost base = rep@;
        let determined = self.determine(&rep);
        let resolved = match determined {
            Some((_, dt)) => Some(dt),
            None => None,
        };
        let res = self.finish_check(rep, resolved);
        proof {
            let r0 = choose|r0: Option<LocalDateTime>|
                self.resolved_for(base.file_stem, r0) && determined_view(determined) == #[trigger] self.spec_determined(
                    base.file_stem,
                    r0,
                );
            assert(self.resolved_for_path(path@, r0));
            assert(rep_view_opt(res) == self.spec_check_with(path@, r0));
            if let Some(f) = self.spec_fields(base.file_stem) {
                lemma_resolution(f, r0);
            }
            if res is Some {
                assert(self.spec_check_with(path@, r0) == Some(res->0@));
            }
        }
        res
    }

    /// The rename of `rep` by this pattern once the date of its stem
    /// resolved to `resolved`: `rename` with the date, nothing without one.
    pub fn finish_check(&self, rep: Replacement, resolved: Option<LocalDateTime>) -> (res: Option<Replacement>)
        ensures
            rep_view_opt(res) == (match resolved {
                Some(dt) => self.spec_rename(rep@, dt),
                None => None,
            }),
    {
        match resolved {
            Some(dt) => self.rename(rep, &dt),
            None => None,
        }
    }

    /// The rename of `replacement` by this pattern once its date is resolved
    /// to `dt`: the stem becomes `dt` printed under the format, the
    /// delimiter, and the kept text; `None` when the format cannot be
    /// printed.
    pub fn rename(&self, replacement: Replacement, dt: &LocalDateTime) -> (res: Option<Replacement>)
        ensures
            rep_view_opt(res) == self.spec_rename(replacement@, *dt),
    {
        let date = match dt.format(self.format.as_str()) {
            Some(date) => date,
            None => {
                return None;
            },
        };
        let kept = self.kept(replacement.file_stem.as_str());
        let stem = concat3(date.as_str(), self.delimiter.as_str(), kept.as_str());
        let ghost base = replacement@;
        let res = replacement.new_file_stem(stem);
        proof {
            assert(res@.new_file_stem =~= date@ + self.delimiter@ + self.spec_kept(base.file_stem));
            assert(res@ == ReplacementView {
                new_file_stem: date@ + self.delimiter@ + self.spec_kept(base.file_stem),
                ..base
            });
        }
        Some(res)
    }
}

/// The text of an optional kept text and date.
pub open spec fn determined_view(o: Option<(String, LocalDateTime)>) -> Option<(Seq<char>, LocalDateTime)> {
    match o {
        Some((k, dt)) => Some((k@, dt)),
        None => None,
    }
}

/// What resolving gives: the date as read when there is one, else the date
/// with month and day swapped.
pub fn pick_resolution(direct: Option<LocalDateTime>, swapped: Option<LocalDateTime>) -> (res: Option<LocalDateTime>)
    ensures
        res == Pattern::spec_pick(direct, swapped),
{
    match direct {
        Some(dt) => Some(dt),
        None => swapped,
    }
}

/// A resolution of the fields `f` is a valid date with them or with month
/// and day swapped; with them whenever the swapped fields are no date, and
/// swapped whenever the fields as read are no date; nothing when neither is.
pub proof fn lemma_resolution(f: (i32, u32, u32, u32, u32, u32), o: Option<LocalDateTime>)
    requires
        Pattern::resolution(f, o),
    ensures
        o matches Some(dt) ==> Pattern::resolves(f, dt),
        Pattern::unresolvable(f) ==> o is None,
        !valid_fields(f.0 as int, f.1 as int, f.2 as int, f.3 as int, f.4 as int, f.5 as int) ==> (o matches Some(
            dt,
        ) ==> dt.has_fields(f.0, f.2, f.1, f.3, f.4, f.5)),
        !valid_fields(f.0 as int, f.2 as int, f.1 as int, f.3 as int, f.4 as int, f.5 as int) ==> (o matches Some(
            dt,
        ) ==> dt.has_fields(f.0, f.1, f.2, f.3, f.4, f.5)),
{
    let (direct, swapped) = choose|direct: Option<LocalDateTime>, swapped: Option<LocalDateTime>|
        #![trigger local_outcome(direct, f.0, f.1, f.2, f.3, f.4, f.5), local_outcome(swapped, f.0, f.2, f.1, f.3, f.4, f.5)]
        local_outcome(direct, f.0, f.1, f.2, f.3, f.4, f.5) && local_outcome(swapped, f.0, f.2, f.1, f.3, f.4, f.5)
            && o == Pattern::spec_pick(direct, swapped);
}

impl MatchedDateTime {
    /// The fields, as a tuple.
    pub open spec fn spec_tuple(&self) -> (i32, u32, u32, u32, u32, u32) {
        (self.year, self.month, self.day, self.hour, self.min, self.sec)
    }

    /// The earliest local date and time with these fields; when there is none,
    /// the one with month and day swapped, which reads dates written month
    /// first.
    pub fn resolve(&self) -> (res: Option<LocalDateTime>)
        ensures
            Pattern::resolution(self.spec_tuple(), res),
            res matches Some(dt) ==> Pattern::resolves((self.year, self.month, self.day, self.hour, self.min, self.sec), dt),
            Pattern::unresolvable((self.year, self.month, self.day, self.hour, self.min, self.sec)) ==> res is None,
            !valid_fields(self.year as int, self.month as int, self.day as int, self.hour as int, self.min as int, self.sec as int)
                ==> (res matches Some(dt) ==> dt.has_fields(self.year, self.day, self.month, self.hour, self.min, self.sec)),
            !valid_fields(self.year as int, self.day as int, self.month as int, self.hour as int, self.min as int, self.sec as int)
                ==> (res matches Some(dt) ==> dt.has_fields(self.year, self.month, self.day, self.hour, self.min, self.sec)),
    {
        let direct = LocalDateTime::local(self.year, self.month, self.day, self.hour, self.min, self.sec);
        let swapped = LocalDateTime::local(self.year, self.day, self.month, self.hour, self.min, self.sec);
        let res = pick_resolution(direct, swapped);
        proof {
            let f = self.spec_tuple();
            assert(local_outcome(direct, f.0, f.1, f.2, f.3, f.4, f.5));
            assert(local_outcome(swapped, f.0, f.2, f.1, f.3, f.4, f.5));
            assert(Pattern::resolution(f, res));
            lemma_resolution(f, res);
        }
        res
    }
}

impl Default for Pattern {
    fn default() -> (res: Self)
        ensures
            res.regex@ == seq!['.'],
            res.format@ == DEFAULT_DATE_FORMAT@,
            res.name@.len() == 0,
            res.delimiter@.len() == 0,
            !res.time,
    {
        proof {
            reveal_strlit(".");
        }
        Pattern {
            regex: owned("."),
            format: owned(DEFAULT_DATE_FORMAT),
            name: String::new(),
            delimiter: String::new(),
            time: false,
        }
    }
}

impl Default for PatternBuilder {
    fn default() -> (res: Self)
        ensures
            res.regex@.len() == 0,
            res.format@ == DEFAULT_DATE_FORMAT@,
            res.name is None,
            res.delimiter is None,
            res.time is None,
    {
        PatternBuilder {
            regex: String::new(),
            format: owned(DEFAULT_DATE_FORMAT),
            name: None,
            delimiter: None,
            time: None,
        }
    }
}

impl PatternBuilder {
    /// Sets the regular expression.
    pub fn regex(&mut self, regex: &str) -> (res: &mut Self)
        ensures
            res.regex@ == regex@,
            res.format == old(self).format,
            res.name == old(self).name,
            res.delimiter == old(self).delimiter,
            res.time == old(self).time,
            *final(self) == *final(res),
    {
        self.regex = owned(regex);
        self
    }

    /// Sets the name.
    pub fn name(&mut self, name: &str) -> (res: &mut Self)
        ensures
            res.name matches Some(n) && n@ == name@,
            res.regex == old(self).regex,
            res.format == old(self).format,
            res.delimiter == old(self).delimiter,
            res.time == old(self).time,
            *final(self) == *final(res),
    {
        self.name = Some(owned(name));
        self
    }

    /// Sets the delimiter.
    pub fn delimiter(&mut self, delim: &str) -> (res: &mut Self)
        ensures
            res.delimiter matches Some(d) && d@ == delim@,
            res.regex == old(self).regex,
            res.format == old(self).format,
            res.name == old(self).name,
            res.time == old(self).time,
            *final(self) == *final(res),
    {
        self.delimiter = Some(owned(delim));
        self
    }

    /// Sets the date format.
    pub fn format(&mut self, format: &str) -> (res: &mut Self)
        ensures
            res.format@ == format@,
            res.regex == old(self).regex,
            res.name == old(self).name,
            res.delimiter == old(self).delimiter,
            res.time == old(self).time,
            *final(self) == *final(res),
    {
        self.format = owned(format);
        self
    }

    /// Sets whether the pattern is meant for dates with a time.
    pub fn time(&mut self, time: bool) -> (res: &mut Self)
        ensures
            res.time == Some(time),
            res.regex == old(self).regex,
            res.format == old(self).format,
            res.name == old(self).name,
            res.delimiter == old(self).delimiter,
            *final(self) == *final(res),
    {
        self.time = Some(time);
        self
    }

    /// The pattern, when the regular expression compiles: the name (which must
    /// be set then), the delimiter (a space by default), the format and the
    /// time flag (false by default) move into it, and the builder is left
    /// with no name, no delimiter and an empty format.
    pub fn build(&mut self) -> (res: Option<Pattern>)
        requires
            regex_valid(old(self).regex@) ==> old(self).name is Some,
        ensures
            regex_valid(old(self).regex@) ==> (res matches Some(p) && p.regex@ == old(self).regex@ && p.name@
                == old(self).name->0@ && p.delimiter@ == (match old(self).delimiter {
                Some(d) => d@,
                None => seq![' '],
            }) && p.format == old(self).format && p.time == (match old(self).time {
                Some(t) => t,
                None => false,
            }) && final(self).name is None && final(self).delimiter is None && final(self).format@.len() == 0
                && final(self).regex == old(self).regex && final(self).time == old(self).time),
            !regex_valid(old(self).regex@) ==> res is None && *final(self) == *old(self),
    {
        if !regex_compiles(self.regex.as_str()) {
            return None;
        }
        proof {
            reveal_strlit(" ");
        }
        let name = match self.name.take() {
            Some(n) => n,
            None => String::new(),
        };
        let delimiter = match self.delimiter.take() {
            Some(d) => d,
            None => owned(" "),
        };
        let mut format = String::new();
        std::mem::swap(&mut format, &mut self.format);
        let time = match self.time {
            Some(t) => t,
            None => false,
        };
        Some(Pattern { regex: self.regex.clone(), format, name, delimiter, time })
    }

    /// Builds the pattern that the entries of `table` describe, under the name
    /// `name`: `regex` (required), `delimiter`, `time`, and `format`
    /// (`default_format` when absent). Entries of another kind count as
    /// absent. `None` when the table has no regular expression or it does
    /// not compile.
    pub fn deserialize(&mut self, name: &str, table: &ConfigTable, default_format: &str) -> (res: Option<Pattern>)
        ensures
            match res {
                Some(p) => value_str(table.spec_get("regex"@)) is Some && regex_valid(p.regex@)
                    && p.regex@ == value_str(table.spec_get("regex"@))->0 && p.name@ == name@
                    && p.delimiter@ == (match value_str(table.spec_get("delimiter"@)) {
                        Some(d) => d,
                        None => match old(self).delimiter {
                            Some(d) => d@,
                            None => seq![' '],
                        },
                    }) && p.time == (match value_bool(table.spec_get("time"@)) {
                        Some(t) => t,
                        None => match old(self).time {
                            Some(t) => t,
                            None => false,
                        },
                    }) && p.format@ == (match value_str(table.spec_get("format"@)) {
                        Some(f) => f,
                        None => default_format@,
                    }),
                None => value_str(table.spec_get("regex"@)) is None || !regex_valid(
                    value_str(table.spec_get("regex"@))->0,
                ),
            },
    {
        self.name(name);
        let regex = match table.get_str("regex") {
            Some(r) => r,
            None => {
                return None;
            },
        };
        self.regex(regex.as_str());
        if let Some(delim) = table.get_str("delimiter") {
            self.delimiter(delim.as_str());
        }
        if let Some(time) = table.get_bool("time") {
            self.time(time);
        }
        match table.get_str("format") {
            Some(format) => {
                self.format(format.as_str());
            },
            None => {
                self.format(default_format);
            },
        }
        self.build()
    }
}

} // verus!

//! The settings of a run and the matchers they call for.

pub mod arguments;
pub mod cli;
pub mod error;
pub mod laws;

pub use arguments::{Arguments, DEFAULT_DATE_FORMAT, DEFAULT_DATE_TIME_FORMAT};
pub use cli::{Interactive, Metadata};
pub use error::Error;

use vstd::prelude::*;

use crate::config::{ConfigTable, ConfigValue};
use crate::matcher::metadata::{self as metadata_matcher, CREATED, MODIFIED};
use crate::matcher::predetermined_date::{PredeterminedDate, TODAY};
use crate::matcher::{Matcher, Pattern};
use crate::text::{owned, str_equal};

verus! {

/// Whether a matcher of the name `name` is among `ms`.
pub open spec fn named(ms: Seq<Matcher>, name: Seq<char>) -> bool {
    exists|i: int| 0 <= i < ms.len() && #[trigger] ms[i].spec_name() == name
}

/// Whether no two matchers of `ms` share a name.
pub open spec fn names_distinct(ms: Seq<Matcher>) -> bool {
    forall|i: int, j: int| 0 <= i < j < ms.len() ==> ms[i].spec_name() != ms[j].spec_name()
}

/// The matchers after `m` is offered: it comes last, unless a matcher of its
/// name is there already.
pub open spec fn spec_add(ms: Seq<Matcher>, m: Matcher) -> Seq<Matcher> {
    if named(ms, m.spec_name()) {
        ms
    } else {
        ms.push(m)
    }
}

/// The matchers after `m` is offered when `offered` holds.
pub open spec fn spec_add_if(ms: Seq<Matcher>, m: Matcher, offered: bool) -> Seq<Matcher> {
    if offered {
        spec_add(ms, m)
    } else {
        ms
    }
}

/// Whether `name` belongs to a matcher of the program's own, which no
/// pattern may take.
pub open spec fn reserved(name: Seq<char>) -> bool {
    name == TODAY@ || name == CREATED@ || name == MODIFIED@
}

/// The matchers after the pattern `p` is offered: it is added when it is
/// meant for the same time setting as the run and its name is not reserved.
pub open spec fn spec_add_pattern(ms: Seq<Matcher>, p: Pattern, time: bool) -> Seq<Matcher> {
    if p.time == time && !reserved(p.name@) {
        spec_add(ms, Matcher::Pattern(p))
    } else {
        ms
    }
}

/// The matchers after the patterns `ps` are offered in order.
pub open spec fn spec_add_patterns(ms: Seq<Matcher>, ps: Seq<Pattern>, time: bool) -> Seq<Matcher>
    decreases ps.len(),
{
    if ps.len() == 0 {
        ms
    } else {
        spec_add_pattern(spec_add_patterns(ms, ps.drop_last(), time), ps.last(), time)
    }
}

/// Whether `ps` are the patterns that the entries of a patterns table
/// describe, in order, under the default format `format`: an entry counts
/// when it is a table that describes a pattern, under the entry's name.
pub open spec fn patterns_of(entries: Seq<(String, ConfigValue)>, format: Seq<char>, ps: Seq<Pattern>) -> bool
    decreases entries.len(),
{
    if entries.len() == 0 {
        ps.len() == 0
    } else {
        match entries.last().1 {
            ConfigValue::Table(t) => if Pattern::deserializes(t) {
                &&& ps.len() > 0
                &&& Pattern::deserialized(entries.last().0@, t, format, ps.last())
                &&& patterns_of(entries.drop_last(), format, ps.drop_last())
            } else {
                patterns_of(entries.drop_last(), format, ps)
            },
            _ => patterns_of(entries.drop_last(), format, ps),
        }
    }
}

/// The entries of an optional table; none without a table.
pub open spec fn entries_of(table: Option<ConfigTable>) -> Seq<(String, ConfigValue)> {
    match table {
        Some(t) => t.entries@,
        None => Seq::empty(),
    }
}

/// Whether `m` prefixes by today's date under `format`.
pub open spec fn today_matcher(m: Matcher, format: Seq<char>) -> bool {
    m matches Matcher::PredeterminedDate(d) && d.format@ == format && d.date_time.is_valid()
}

/// Whether `m` prefixes by the time of the kind `kind` under `format`.
pub open spec fn metadata_matcher(m: Matcher, kind: metadata_matcher::Kind, format: Seq<char>, time: bool) -> bool {
    m matches Matcher::Metadata(d) && d.kind == kind && d.format@ == format && d.time == time
}

/// Whether `after` are the matchers that the settings `args` call for,
/// added to `before`, given what was made for them: the matcher by today's
/// date, the patterns of the configuration, and the matchers by creation and
/// modification time.
pub open spec fn set_up(
    args: Arguments,
    before: Seq<Matcher>,
    after: Seq<Matcher>,
    today: Matcher,
    ps: Seq<Pattern>,
    created: Matcher,
    modified: Matcher,
) -> bool {
    let format = args.spec_default_format();
    &&& today_matcher(today, format)
    &&& patterns_of(entries_of(args.patterns), format, ps)
    &&& metadata_matcher(created, metadata_matcher::Kind::Created, format, args.time)
    &&& metadata_matcher(modified, metadata_matcher::Kind::Modified, format, args.time)
    &&& after == spec_add_if(
        spec_add_if(
            spec_add_patterns(spec_add_if(before, today, args.today), ps, args.time),
            created,
            args.metadata is Created || args.metadata is Both,
        ),
        modified,
        args.metadata is Modified || args.metadata is Both,
    )
}

/// A run: its settings and the matchers they call for.
#[derive(Debug)]
pub struct Application {
    pub matchers: Vec<Matcher>,
    pub arguments: Arguments,
}

impl Default for Application {
    fn default() -> (res: Self)
        ensures
            res.matchers@.len() == 0,
            res.arguments.interactive is Off,
            !res.arguments.time,
            res.arguments.default_date_format@ == DEFAULT_DATE_FORMAT@,
            res.arguments.default_date_time_format@ == DEFAULT_DATE_TIME_FORMAT@,
            !res.arguments.today,
            res.arguments.metadata is Neither,
            res.arguments.patterns is None,
            res.arguments.init_errors@.len() == 0,
            res.arguments.paths@.len() == 0,
    {
        Application::new(Arguments::default())
    }
}

impl Application {
    /// A run with the settings `arguments` and no matcher yet.
    pub fn new(arguments: Arguments) -> (res: Self)
        ensures
            res.matchers@.len() == 0,
            res.arguments == arguments,
    {
        Application { matchers: Vec::new(), arguments }
    }

    /// Sets up the matchers that the settings call for, in this order:
    /// today's date when enabled, the patterns of the configuration (which
    /// are taken out of the settings), then the creation and the
    /// modification times when enabled; all under the default format of the
    /// run.
    pub fn setup_matchers(&mut self)
        ensures
            exists|today: Matcher, ps: Seq<Pattern>, created: Matcher, modified: Matcher|
                #[trigger] set_up(old(self).arguments, old(self).matchers@, final(self).matchers@, today, ps, created, modified),
            final(self).arguments.patterns is None,
            final(self).arguments.time == old(self).arguments.time,
            final(self).arguments.today == old(self).arguments.today,
            final(self).arguments.metadata == old(self).arguments.metadata,
            final(self).arguments.default_date_format == old(self).arguments.default_date_format,
            final(self).arguments.default_date_time_format == old(self).arguments.default_date_time_format,
            final(self).arguments.interactive == old(self).arguments.interactive,
            final(self).arguments.paths == old(self).arguments.paths,
            final(self).arguments.init_errors == old(self).arguments.init_errors,
            names_distinct(old(self).matchers@) ==> names_distinct(final(self).matchers@),
    {
        let format = owned(self.arguments.default_format());
        let time = self.arguments.time();
        let ghost start = self.matchers@;
        let ghost distinct_at_start = names_distinct(start);
        let today = Matcher::PredeterminedDate(PredeterminedDate::new(format.as_str()));
        let ghost today_g = today;
        if self.arguments.today() {
            self.add_matcher(today);
        }
        let ghost after_today = self.matchers@;
        let mut patterns = None;
        std::mem::swap(&mut patterns, &mut self.arguments.patterns);
        let ghost entries = entries_of(patterns);
        let ghost mut ps: Seq<Pattern> = Seq::empty();
        if let Some(table) = patterns {
            let mut i: usize = 0;
            assert(entries.take(0) =~= Seq::<(String, ConfigValue)>::empty());
            while i < table.entries.len()
                invariant
                    i <= table.entries@.len(),
                    entries == table.entries@,
                    format@ == old(self).arguments.spec_default_format(),
                    time == old(self).arguments.time,
                    patterns_of(entries.take(i as int), format@, ps),
                    self.matchers@ == spec_add_patterns(after_today, ps, time),
                    distinct_at_start ==> names_distinct(after_today),
                    names_distinct(after_today) ==> names_distinct(self.matchers@),
                    self.arguments.patterns is None,
                    self.arguments.time == old(self).arguments.time,
                    self.arguments.today == old(self).arguments.today,
                    self.arguments.metadata == old(self).arguments.metadata,
                    self.arguments.default_date_format == old(self).arguments.default_date_format,
                    self.arguments.default_date_time_format == old(self).arguments.default_date_time_format,
                    self.arguments.interactive == old(self).arguments.interactive,
                    self.arguments.paths == old(self).arguments.paths,
                    self.arguments.init_errors == old(self).arguments.init_errors,
                decreases table.entries@.len() - i,
            {
                let ghost prev_ps = ps;
                assert(entries.take(i + 1).drop_last() =~= entries.take(i as int));
                assert(entries.take(i + 1).last() == entries[i as int]);
                match &table.entries[i].1 {
                    ConfigValue::Table(t) => {
                        match Pattern::deserialize(table.entries[i].0.as_str(), t, format.as_str()) {
                            Some(p) => {
                                proof {
                                    ps = ps.push(p);
                                    assert(ps.drop_last() =~= prev_ps);
                                }
                                self.add_pattern_matcher(p);
                            },
                            None => {},
                        }
                    },
                    _ => {},
                }
                i = i + 1;
            }
            assert(entries.take(entries.len() as int) =~= entries);
        }
        let ghost after_patterns = self.matchers@;
        let created = Matcher::Metadata(metadata_matcher::Metadata::new_created(format.as_str(), time));
        let ghost created_g = created;
        if self.arguments.metadata().created() {
            self.add_matcher(created);
        }
        let modified = Matcher::Metadata(metadata_matcher::Metadata::new_modified(format.as_str(), time));
        let ghost modified_g = modified;
        if self.arguments.metadata().modified() {
            self.add_matcher(modified);
        }
        assert(today_matcher(today_g, format@));
        assert(metadata_matcher(created_g, metadata_matcher::Kind::Created, format@, time));
        assert(metadata_matcher(modified_g, metadata_matcher::Kind::Modified, format@, time));
        assert(set_up(old(self).arguments, start, self.matchers@, today_g, ps, created_g, modified_g));
    }

    /// Offers the pattern `pattern`: it is added when it is meant for the
    /// same time setting as the run and its name is not reserved, unless a
    /// matcher of its name is there already.
    pub fn add_pattern_matcher(&mut self, pattern: Pattern)
        ensures
            final(self).matchers@ == spec_add_pattern(old(self).matchers@, pattern, old(self).arguments.time),
            final(self).arguments == old(self).arguments,
            names_distinct(old(self).matchers@) ==> names_distinct(final(self).matchers@),
    {
        if pattern.time() == self.arguments.time() && !is_reserved(pattern.name()) {
            self.add_matcher(Matcher::Pattern(pattern));
        }
    }

    /// Offers the matcher `matcher`: it is added last, unless a matcher of
    /// its name is there already.
    pub fn add_matcher(&mut self, matcher: Matcher)
        ensures
            final(self).matchers@ == spec_add(old(self).matchers@, matcher),
            final(self).arguments == old(self).arguments,
            names_distinct(old(self).matchers@) ==> names_distinct(final(self).matchers@),
    {
        let mut i: usize = 0;
        while i < self.matchers.len()
            invariant
                i <= self.matchers@.len(),
                self.matchers@ == old(self).matchers@,
                self.arguments == old(self).arguments,
                forall|k: int| 0 <= k < i ==> self.matchers@[k].spec_name() != matcher.spec_name(),
            decreases self.matchers@.len() - i,
        {
            if str_equal(self.matchers[i].name(), matcher.name()) {
                assert(self.matchers@[i as int].spec_name() == matcher.spec_name());
                return;
            }
            i = i + 1;
        }
        self.matchers.push(matcher);
    }
}

/// Whether `name` belongs to a matcher of the program's own.
pub fn is_reserved(name: &str) -> (res: bool)
    ensures
        res == reserved(name@),
{
    str_equal(name, TODAY) || str_equal(name, CREATED) || str_equal(name, MODIFIED)
}

} // verus!

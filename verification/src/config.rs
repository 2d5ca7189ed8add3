//! Configuration tables: the values of a TOML table that the library reads.

use vstd::prelude::*;

use crate::text::str_equal;

verus! {

/// A value of a TOML document, as the `toml` crate holds it.
#[verifier::external_type_specification]
#[verifier::external_body]
pub struct ExTomlValue(toml::Value);

/// Whether `content` is a TOML document: `str::parse::<toml::Table>`
/// succeeds on it.
pub uninterp spec fn toml_parses(content: Seq<char>) -> bool;

/// How the `toml` crate's error for `content` prints under `{:?}`.
pub uninterp spec fn toml_parse_error(content: Seq<char>) -> Seq<char>;

/// The TOML document `content`, as the configuration reads it: the entries
/// of its table in the table's order (keys sorted), strings, booleans and
/// nested tables kept, any other value `Other`.
pub uninterp spec fn toml_document(content: Seq<char>) -> Seq<(Seq<char>, ConfigValueView)>;

/// `str::parse::<toml::Table>` of `content`, each value turned into a
/// configuration value kind for kind; or the error printed under `{:?}`.
///
/// The contract claims when the parse succeeds, what its error says, that
/// the table is the document `toml_document` names, and that no key occurs
/// twice in a table (a TOML table is a map).
#[verifier::external_body]
fn toml_parse(content: &str) -> (res: Result<ConfigTable, String>)
    ensures
        res is Ok <==> toml_parses(content@),
        res matches Err(e) ==> e@ == toml_parse_error(content@),
        res matches Ok(t) ==> t.spec_view() == toml_document(content@) && t.keys_distinct(),
{
    match content.parse::<toml::Table>() {
        Ok(table) => {
            let mut entries = Vec::new();
            for (key, value) in table {
                entries.push((key, config_value(value)));
            }
            Ok(ConfigTable { entries })
        },
        Err(error) => Err(format!("{:?}", error)),
    }
}

/// A TOML value as a configuration value, kind for kind: strings, booleans
/// and tables (their entries in order) kept, any other value `Other`.
///
/// Nothing is claimed of the result on its own: `toml_parse` states what the
/// whole document gives.
#[verifier::external_body]
fn config_value(value: toml::Value) -> (res: ConfigValue) {
    match value {
        toml::Value::String(s) => ConfigValue::String(s),
        toml::Value::Boolean(b) => ConfigValue::Boolean(b),
        toml::Value::Table(table) => {
            let mut entries = Vec::new();
            for (key, value) in table {
                entries.push((key, config_value(value)));
            }
            ConfigValue::Table(ConfigTable { entries })
        },
        _ => ConfigValue::Other,
    }
}

/// The configuration table that the text `content` holds: `Ok` exactly when
/// it is a TOML document, with the entries of the document and no key
/// twice; otherwise the parse error.
pub fn parse_config(content: &str) -> (res: Result<ConfigTable, String>)
    ensures
        res is Ok <==> toml_parses(content@),
        res matches Err(e) ==> e@ == toml_parse_error(content@),
        res matches Ok(t) ==> t.spec_view() == toml_document(content@) && t.keys_distinct(),
{
    toml_parse(content)
}

/// What a configuration value holds, as text: the kinds that the library
/// reads, and `Other` for the rest.
pub enum ConfigValueView {
    String(Seq<char>),
    Boolean(bool),
    Table(Seq<(Seq<char>, ConfigValueView)>),
    Other,
}

/// What a configuration value holds.
pub open spec fn value_view(v: ConfigValue) -> ConfigValueView
    decreases v, 1nat,
{
    match v {
        ConfigValue::String(s) => ConfigValueView::String(s@),
        ConfigValue::Boolean(b) => ConfigValueView::Boolean(b),
        ConfigValue::Table(t) => ConfigValueView::Table(entries_view(t.entries@)),
        ConfigValue::Other => ConfigValueView::Other,
    }
}

/// What the entries of a configuration table hold, in order.
pub open spec fn entries_view(entries: Seq<(String, ConfigValue)>) -> Seq<(Seq<char>, ConfigValueView)>
    decreases entries, 0nat,
{
    if entries.len() == 0 {
        Seq::empty()
    } else {
        entries_view(entries.drop_last()).push((entries.last().0@, value_view(entries.last().1)))
    }
}

/// A value of a configuration table: the kinds that the library reads, and
/// `Other` for the rest (numbers, dates, arrays).
#[derive(Debug)]
pub enum ConfigValue {
    String(String),
    Boolean(bool),
    Table(ConfigTable),
    Other,
}

/// A configuration table: its entries in order, keys without repetition.
#[derive(Debug)]
pub struct ConfigTable {
    pub entries: Vec<(String, ConfigValue)>,
}

/// Index of the first entry of `entries` under `key`, `-1` when there is none.
pub open spec fn find_key(entries: Seq<(String, ConfigValue)>, key: Seq<char>) -> int
    decreases entries.len(),
{
    if entries.len() == 0 {
        -1
    } else if entries.last().0@ == key && find_key(entries.drop_last(), key) == -1 {
        entries.len() - 1
    } else {
        find_key(entries.drop_last(), key)
    }
}

proof fn lemma_find_key(entries: Seq<(String, ConfigValue)>, key: Seq<char>)
    ensures
        -1 <= find_key(entries, key) < entries.len(),
        find_key(entries, key) >= 0 ==> entries[find_key(entries, key)].0@ == key,
        find_key(entries, key) >= 0 ==> forall|j: int| 0 <= j < find_key(entries, key) ==> entries[j].0@ != key,
        find_key(entries, key) == -1 ==> forall|j: int| 0 <= j < entries.len() ==> entries[j].0@ != key,
    decreases entries.len(),
{
    if entries.len() > 0 {
        lemma_find_key(entries.drop_last(), key);
        assert(forall|j: int| 0 <= j < entries.len() - 1 ==> entries.drop_last()[j] == entries[j]);
    }
}

/// The text of a value, if it is a string.
pub open spec fn value_str(v: Option<ConfigValue>) -> Option<Seq<char>> {
    match v {
        Some(ConfigValue::String(s)) => Some(s@),
        _ => None,
    }
}

/// The value, if it is a boolean.
pub open spec fn value_bool(v: Option<ConfigValue>) -> Option<bool> {
    match v {
        Some(ConfigValue::Boolean(b)) => Some(b),
        _ => None,
    }
}

impl ConfigTable {
    /// The value under `key`.
    pub open spec fn spec_get(&self, key: Seq<char>) -> Option<ConfigValue> {
        let i = find_key(self.entries@, key);
        if i >= 0 {
            Some(self.entries@[i].1)
        } else {
            None
        }
    }

    /// What the table holds, entry by entry.
    pub open spec fn spec_view(&self) -> Seq<(Seq<char>, ConfigValueView)> {
        entries_view(self.entries@)
    }

    /// Whether no key occurs twice.
    pub open spec fn keys_distinct(&self) -> bool {
        forall|i: int, j: int| 0 <= i < j < self.entries@.len() ==> self.entries@[i].0@ != self.entries@[j].0@
    }

    /// An empty table.
    pub fn new() -> (res: ConfigTable)
        ensures
            res.entries@.len() == 0,
    {
        ConfigTable { entries: Vec::new() }
    }

    /// The number of entries.
    pub fn len(&self) -> (res: usize)
        ensures
            res == self.entries@.len(),
    {
        self.entries.len()
    }

    /// The position of the entry under `key`.
    fn position(&self, key: &str) -> (res: Option<usize>)
        ensures
            match res {
                Some(i) => i as int == find_key(self.entries@, key@) && i < self.entries@.len(),
                None => find_key(self.entries@, key@) == -1,
            },
    {
        proof {
            lemma_find_key(self.entries@, key@);
        }
        let mut i: usize = 0;
        while i < self.entries.len()
            invariant
                i <= self.entries@.len(),
                forall|j: int| 0 <= j < i ==> self.entries@[j].0@ != key@,
                -1 <= find_key(self.entries@, key@) < self.entries@.len(),
                find_key(self.entries@, key@) >= 0 ==> self.entries@[find_key(self.entries@, key@)].0@ == key@,
                find_key(self.entries@, key@) >= 0 ==> forall|j: int|
                    0 <= j < find_key(self.entries@, key@) ==> self.entries@[j].0@ != key@,
                find_key(self.entries@, key@) == -1 ==> forall|j: int|
                    0 <= j < self.entries@.len() ==> self.entries@[j].0@ != key@,
            decreases self.entries@.len() - i,
        {
            if str_equal(self.entries[i].0.as_str(), key) {
                return Some(i);
            }
            i = i + 1;
        }
        None
    }

    /// The value under `key`.
    pub fn get(&self, key: &str) -> (res: Option<&ConfigValue>)
        ensures
            match res {
                Some(v) => self.spec_get(key@) == Some(*v),
                None => self.spec_get(key@) is None,
            },
    {
        match self.position(key) {
            Some(i) => Some(&self.entries[i].1),
            None => None,
        }
    }

    /// The text under `key`, if the value there is a string.
    pub fn get_str(&self, key: &str) -> (res: Option<String>)
        ensures
            crate::replacement::opt_view(res) == value_str(self.spec_get(key@)),
    {
        match self.get(key) {
            Some(ConfigValue::String(s)) => Some(s.clone()),
            _ => None,
        }
    }

    /// The boolean under `key`, if the value there is a boolean.
    pub fn get_bool(&self, key: &str) -> (res: Option<bool>)
        ensures
            res == value_bool(self.spec_get(key@)),
    {
        match self.get(key) {
            Some(ConfigValue::Boolean(b)) => Some(*b),
            _ => None,
        }
    }

    /// Puts `value` under `key`, in place of the value there if any.
    pub fn insert(&mut self, key: String, value: ConfigValue)
        ensures
            final(self).spec_get(key@) == Some(value),
            forall|k: Seq<char>| k != key@ ==> final(self).spec_get(k) == old(self).spec_get(k),
            old(self).keys_distinct() ==> final(self).keys_distinct(),
    {
        proof {
            lemma_find_key(self.entries@, key@);
        }
        match self.position(key.as_str()) {
            Some(i) => {
                let ghost k0 = key@;
                self.entries.set(i, (key, value));
                proof {
                    assert forall|k: Seq<char>| k != k0 implies self.spec_get(k) == old(self).spec_get(k) by {
                        lemma_find_key(self.entries@, k);
                        lemma_find_key(old(self).entries@, k);
                        assert(forall|j: int| 0 <= j < self.entries@.len() && j != i ==> self.entries@[j] == old(self).entries@[j]);
                        let a = find_key(self.entries@, k);
                        let b = find_key(old(self).entries@, k);
                        if a >= 0 && b >= 0 {
                            assert(!(a < b));
                            assert(!(b < a));
                        } else if a >= 0 {
                            assert(self.entries@[a].0@ == k);
                        } else if b >= 0 {
                            assert(old(self).entries@[b].0@ == k);
                        }
                    }
                    lemma_find_key(self.entries@, k0);
                    let a = find_key(self.entries@, k0);
                    if a >= 0 && a < i {
                        assert(old(self).entries@[a].0@ != k0);
                    }
                    assert(self.entries@[i as int].0@ == k0);
                }
            },
            None => {
                let ghost k0 = key@;
                self.entries.push((key, value));
                proof {
                    let n = old(self).entries@.len();
                    assert(self.entries@.drop_last() =~= old(self).entries@);
                    assert forall|k: Seq<char>| k != k0 implies self.spec_get(k) == old(self).spec_get(k) by {
                        assert(self.entries@.last().0@ == k0);
                        assert(self.entries@.drop_last() =~= old(self).entries@);
                        lemma_find_key(old(self).entries@, k);
                        if find_key(old(self).entries@, k) >= 0 {
                            assert(self.entries@[find_key(old(self).entries@, k)] == old(self).entries@[find_key(old(self).entries@, k)]);
                        }
                    }
                    assert(self.entries@.drop_last() =~= old(self).entries@);
                }
            },
        }
    }

    /// Takes the value under `key` out of the table; the values under the
    /// other keys stay.
    pub fn remove(&mut self, key: &str) -> (res: Option<ConfigValue>)
        ensures
            res == old(self).spec_get(key@),
            forall|k: Seq<char>| k != key@ ==> final(self).spec_get(k) == old(self).spec_get(k),
            old(self).keys_distinct() ==> final(self).keys_distinct() && final(self).spec_get(key@) is None,
    {
        proof {
            lemma_find_key(self.entries@, key@);
        }
        match self.position(key) {
            Some(i) => {
                let ghost pre = self.entries@;
                let (_, value) = self.entries.remove(i);
                proof {
                    let post = self.entries@;
                    assert(post =~= pre.remove(i as int));
                    assert forall|k: Seq<char>| k != key@ implies self.spec_get(k) == old(self).spec_get(k) by {
                        lemma_find_key(post, k);
                        lemma_find_key(pre, k);
                        let a = find_key(post, k);
                        let b = find_key(pre, k);
                        if a >= 0 {
                            let a2 = if a < i { a } else { a + 1 };
                            assert(pre[a2] == post[a]);
                            if b >= 0 && b < a2 {
                                let b2 = if b < i { b } else { b - 1 };
                                assert(post[b2] == pre[b]);
                            }
                            assert(b == a2);
                        } else if b >= 0 {
                            let b2 = if b < i { b } else { b - 1 };
                            assert(post[b2] == pre[b]);
                        }
                    }
                    if old(self).keys_distinct() {
                        assert forall|a: int, b: int| 0 <= a < b < post.len() implies post[a].0@ != post[b].0@ by {
                            let a2 = if a < i { a } else { a + 1 };
                            let b2 = if b < i { b } else { b + 1 };
                            assert(post[a] == pre[a2]);
                            assert(post[b] == pre[b2]);
                        }
                        lemma_find_key(post, key@);
                        let a = find_key(post, key@);
                        if a >= 0 {
                            let a2 = if a < i { a } else { a + 1 };
                            assert(post[a] == pre[a2]);
                            assert(pre[i as int].0@ == key@);
                        }
                    }
                }
                Some(value)
            },
            None => None,
        }
    }
}

} // verus!

//! A planned rename: the parent directory, the current file stem, the new
//! file stem and the extension, which a rename keeps.

use vstd::prelude::*;

use crate::processing::error::Error;
use crate::text::{concat2, concat3, owned, push_char};

verus! {

/// What `std::path::Path::parent` gives for a path, as text.
pub uninterp spec fn path_parent(path: Seq<char>) -> Option<Seq<char>>;

/// What `std::path::Path::file_name` gives for a path, as text.
pub uninterp spec fn path_file_name(path: Seq<char>) -> Option<Seq<char>>;

/// `Path::parent` of the path `path`, as a `String`.
///
/// The contract claims only that the result is the value that `Path::parent`
/// gives for this text: the parsing of path components is left to std.
#[verifier::external_body]
fn std_path_parent(path: &str) -> (res: Option<String>)
    ensures
        opt_view(res) == path_parent(path@),
{
    std::path::Path::new(path).parent().and_then(|p| p.to_str()).map(|p| p.to_string())
}

/// `Path::file_name` of the path `path`, as a `String`.
///
/// The contract claims only that the result is the value that
/// `Path::file_name` gives for this text.
#[verifier::external_body]
fn std_path_file_name(path: &str) -> (res: Option<String>)
    ensures
        opt_view(res) == path_file_name(path@),
{
    std::path::Path::new(path).file_name().and_then(|p| p.to_str()).map(|p| p.to_string())
}

/// The text of an optional rename.
pub open spec fn rep_view_opt(o: Option<Replacement>) -> Option<ReplacementView> {
    match o {
        Some(r) => Some(r@),
        None => None,
    }
}

/// The characters of an optional string.
pub open spec fn opt_view(o: Option<String>) -> Option<Seq<char>> {
    match o {
        Some(s) => Some(s@),
        None => None,
    }
}

/// Index of the last `'.'` strictly before `end`, or `-1` when there is none.
pub open spec fn last_dot_before(s: Seq<char>, end: int) -> int
    decreases end,
{
    if end <= 0 {
        -1
    } else if s[end - 1] == '.' {
        end - 1
    } else {
        last_dot_before(s, end - 1)
    }
}

/// How std splits a file name into stem and extension
/// (`Path::file_stem`, `Path::extension`): the extension is what follows the
/// final `'.'`, unless there is no `'.'` or the only one opens the name, in
/// which case the whole name is the stem and there is no extension.
pub open spec fn split_stem(name: Seq<char>) -> (Seq<char>, Option<Seq<char>>) {
    let i = last_dot_before(name, name.len() as int);
    if name == seq!['.', '.'] || i <= 0 {
        (name, None)
    } else {
        (name.take(i), Some(name.skip(i + 1)))
    }
}

/// A file name made of a stem and an optional extension.
pub open spec fn spec_file_name(stem: Seq<char>, extension: Option<Seq<char>>) -> Seq<char> {
    match extension {
        Some(ext) => stem + seq!['.'] + ext,
        None => stem,
    }
}

/// `Path::join` on Unix: an absolute `name` replaces `parent`, and a separator
/// is put between the two only when `parent` is not empty and does not end
/// with one already.
pub open spec fn spec_join(parent: Seq<char>, name: Seq<char>) -> Seq<char> {
    if name.len() > 0 && name[0] == '/' {
        name
    } else if parent.len() == 0 || parent[parent.len() - 1] == '/' {
        parent + name
    } else {
        parent + seq!['/'] + name
    }
}

/// A rename of `parent/file_stem[.extension]` into
/// `parent/new_file_stem[.extension]`.
#[derive(Debug, PartialEq, Eq)]
pub struct Replacement {
    pub parent: String,
    pub file_stem: String,
    pub new_file_stem: String,
    pub extension: Option<String>,
}

/// The text of a `Replacement`.
pub struct ReplacementView {
    pub parent: Seq<char>,
    pub file_stem: Seq<char>,
    pub new_file_stem: Seq<char>,
    pub extension: Option<Seq<char>>,
}

impl View for Replacement {
    type V = ReplacementView;

    open spec fn view(&self) -> ReplacementView {
        ReplacementView {
            parent: self.parent@,
            file_stem: self.file_stem@,
            new_file_stem: self.new_file_stem@,
            extension: opt_view(self.extension),
        }
    }
}

impl Clone for Replacement {
    fn clone(&self) -> (res: Self)
        ensures
            res == *self,
    {
        Replacement {
            parent: self.parent.clone(),
            file_stem: self.file_stem.clone(),
            new_file_stem: self.new_file_stem.clone(),
            extension: clone_opt_string(&self.extension),
        }
    }
}

/// A copy of an optional string.
pub fn clone_opt_string(o: &Option<String>) -> (res: Option<String>)
    ensures
        res == *o,
{
    match o {
        Some(s) => Some(s.clone()),
        None => None,
    }
}

/// Splits `name` at its final `'.'` as `split_stem` says.
pub fn split_file_name(name: &str) -> (res: (String, Option<String>))
    ensures
        res.0@ == split_stem(name@).0,
        opt_view(res.1) == split_stem(name@).1,
{
    let len = name.unicode_len();
    let mut i = len;
    while i > 0
        invariant
            i <= len,
            len == name@.len(),
            last_dot_before(name@, len as int) == last_dot_before(name@, i as int),
        ensures
            i == 0 || name@[i - 1] == '.',
        decreases i,
    {
        if name.get_char(i - 1) == '.' {
            break;
        }
        i = i - 1;
    }
    assert(last_dot_before(name@, len as int) == i - 1);
    let is_parent_dir = len == 2 && name.get_char(0) == '.' && name.get_char(1) == '.';
    proof {
        if len == 2 {
            assert(is_parent_dir == (name@ =~= seq!['.', '.']));
        } else {
            assert(name@ != seq!['.', '.']);
        }
    }
    if is_parent_dir || i <= 1 {
        (owned(name), None)
    } else {
        let stem = name.substring_char(0, i - 1);
        let ext = name.substring_char(i, len);
        proof {
            assert(stem@ =~= name@.take(i - 1));
            assert(ext@ =~= name@.skip(i as int));
        }
        (owned(stem), Some(owned(ext)))
    }
}

/// Joins a directory and a file name as `spec_join` says.
pub fn join(parent: &str, name: &str) -> (res: String)
    ensures
        res@ == spec_join(parent@, name@),
{
    proof {
        reveal_strlit("/");
    }
    let plen = parent.unicode_len();
    let nlen = name.unicode_len();
    if nlen > 0 && name.get_char(0) == '/' {
        owned(name)
    } else if plen == 0 || parent.get_char(plen - 1) == '/' {
        concat2(parent, name)
    } else {
        concat3(parent, "/", name)
    }
}

/// `path` with its directory replaced by `resolved_parent`, the same
/// directory as found on disk (symbolic links and relative parts followed),
/// when there is one and the path has a parent and a file name; `path`
/// itself otherwise.
pub open spec fn spec_resolved_path(path: Seq<char>, resolved_parent: Option<Seq<char>>) -> Seq<char> {
    match (resolved_parent, path_parent(path), path_file_name(path)) {
        (Some(dir), Some(_), Some(name)) => spec_join(dir, name),
        _ => path,
    }
}

/// The path that a rename of `path` works on: its file name in the directory
/// `resolved_parent` when that could be found on disk, else `path` itself.
pub fn resolved_path(path: &str, resolved_parent: &Option<String>) -> (res: String)
    ensures
        res@ == spec_resolved_path(path@, opt_view(*resolved_parent)),
{
    match resolved_parent {
        Some(dir) => {
            if std_path_parent(path).is_none() {
                return owned(path);
            }
            match std_path_file_name(path) {
                Some(name) => join(dir.as_str(), name.as_str()),
                None => owned(path),
            }
        },
        None => owned(path),
    }
}

impl Replacement {
    /// What a path gives when it is split for a rename: `Ok` exactly when the
    /// path has a parent and a file name.
    pub open spec fn spec_try_from(path: Seq<char>) -> Result<ReplacementView, ()> {
        match (path_parent(path), path_file_name(path)) {
            (Some(parent), Some(name)) => Ok(ReplacementView {
                parent: parent,
                file_stem: split_stem(name).0,
                new_file_stem: split_stem(name).0,
                extension: split_stem(name).1,
            }),
            _ => Err(()),
        }
    }

    /// Splits `path` into its parent, file stem and extension; the new file
    /// stem starts equal to the file stem.
    pub fn try_from(path: &str) -> (res: Result<Replacement, Error>)
        ensures
            match res {
                Ok(rep) => Self::spec_try_from(path@) == Ok::<ReplacementView, ()>(rep@),
                Err(e) => Self::spec_try_from(path@) is Err && e is PathUnwrap
                    && e->PathUnwrap_0@ == path@,
            },
    {
        let parent = match std_path_parent(path) {
            Some(p) => p,
            None => {
                return Err(Error::PathUnwrap(owned(path), owned("parent")));
            },
        };
        let name = match std_path_file_name(path) {
            Some(n) => n,
            None => {
                return Err(Error::PathUnwrap(owned(path), owned("file_stem")));
            },
        };
        let (stem, extension) = split_file_name(name.as_str());
        Ok(Replacement { parent, file_stem: stem.clone(), new_file_stem: stem, extension })
    }

    /// The current file name: the stem, then `.` and the extension if any.
    pub fn file_name(&self) -> (res: String)
        ensures
            res@ == spec_file_name(self.file_stem@, opt_view(self.extension)),
    {
        proof {
            reveal_strlit(".");
        }
        match &self.extension {
            Some(ext) => concat3(self.file_stem.as_str(), ".", ext.as_str()),
            None => self.file_stem.clone(),
        }
    }

    /// The file name after the rename.
    pub fn new_file_name(&self) -> (res: String)
        ensures
            res@ == spec_file_name(self.new_file_stem@, opt_view(self.extension)),
    {
        proof {
            reveal_strlit(".");
        }
        match &self.extension {
            Some(ext) => concat3(self.new_file_stem.as_str(), ".", ext.as_str()),
            None => self.new_file_stem.clone(),
        }
    }

    /// The path before the rename, as text.
    pub open spec fn spec_path(&self) -> Seq<char> {
        spec_join(self.parent@, spec_file_name(self.file_stem@, opt_view(self.extension)))
    }

    /// The path before the rename.
    pub fn path(&self) -> (res: String)
        ensures
            res@ == spec_join(self.parent@, spec_file_name(self.file_stem@, opt_view(self.extension))),
    {
        let name = self.file_name();
        join(self.parent.as_str(), name.as_str())
    }

    /// The path after the rename.
    pub fn new_path(&self) -> (res: String)
        ensures
            res@ == spec_join(self.parent@, spec_file_name(self.new_file_stem@, opt_view(self.extension))),
    {
        let name = self.new_file_name();
        join(self.parent.as_str(), name.as_str())
    }

    /// The same rename with another new file stem.
    pub fn new_file_stem(self, value: String) -> (res: Self)
        ensures
            res.parent == self.parent,
            res.file_stem == self.file_stem,
            res.extension == self.extension,
            res.new_file_stem == value,
    {
        let mut res = self;
        res.new_file_stem = value;
        res
    }

    /// `parent/{file_stem => new_file_stem}.extension`, the way a rename is
    /// shown to the user.
    pub fn to_display(&self) -> (res: String)
        ensures
            res@ == self.parent@ + seq!['/', '{'] + self.file_stem@ + seq![' ', '=', '>', ' ']
                + self.new_file_stem@ + seq!['}'] + match opt_view(self.extension) {
                    Some(ext) => seq!['.'] + ext,
                    None => Seq::<char>::empty(),
                },
    {
        let mut res = concat3(self.parent.as_str(), "/{", self.file_stem.as_str());
        res.append(" => ");
        res.append(self.new_file_stem.as_str());
        push_char(&mut res, '}');
        if let Some(ext) = &self.extension {
            push_char(&mut res, '.');
            res.append(ext.as_str());
        }
        proof {
            reveal_strlit("/{");
            reveal_strlit(" => ");
        }
        res
    }
}

/// The text of the empty rename: every part empty, no extension.
pub open spec fn empty_view() -> ReplacementView {
    ReplacementView {
        parent: Seq::empty(),
        file_stem: Seq::empty(),
        new_file_stem: Seq::empty(),
        extension: Some(Seq::empty()),
    }
}

impl Default for Replacement {
    fn default() -> (res: Self)
        ensures
            res@ == empty_view(),
    {
        Replacement {
            parent: String::new(),
            file_stem: String::new(),
            new_file_stem: String::new(),
            extension: Some(String::new()),
        }
    }
}

} // verus!

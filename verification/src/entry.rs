//! One file found by a scan: where it is, when it was created, and how old it
//! was when the scan saw it.

use vstd::prelude::*;
use crate::text::chars_of;
use crate::time::{Span, Timestamp};
use crate::trusted::{
    file_name_of, humanize, parent_of, path_file_name, path_parent, relative_age_text,
};

verus! {

/// The character that parts the components of a path.
pub const SEPARATOR: char = '/';

/// What a `File` stands for.
pub struct FileView {
    /// The path as it was found.
    pub path: Seq<char>,
    /// When the file was created, in nanoseconds since the epoch.
    pub creation_date: int,
    /// The file's age when it was recorded, in nanoseconds.
    pub time_since_creation: nat,
}

/// A file that is not a directory. Nothing in it changes once it is made.
#[derive(Debug, Clone, PartialEq, Eq)]
pub struct File {
    path: String,
    creation_date: Timestamp,
    time_since_creation: Span,
}

impl View for File {
    type V = FileView;

    closed spec fn view(&self) -> FileView {
        FileView {
            path: self.path@,
            creation_date: self.creation_date@,
            time_since_creation: self.time_since_creation@,
        }
    }
}

/// `s` without each separator that stands directly behind another one.
pub open spec fn collapse_separators(s: Seq<char>) -> Seq<char>
    decreases s.len(),
{
    if s.len() == 0 {
        s
    } else if s.len() >= 2 && s[s.len() - 2] == SEPARATOR && s.last() == SEPARATOR {
        collapse_separators(s.drop_last())
    } else {
        collapse_separators(s.drop_last()).push(s.last())
    }
}

/// Whether no separator in `s` stands directly behind another one.
pub open spec fn separators_single(s: Seq<char>) -> bool {
    forall|i: int| 0 < i < s.len() ==> !(s[i - 1] == SEPARATOR && #[trigger] s[i] == SEPARATOR)
}

/// Collapsing leaves no doubled separator, keeps the last character, and
/// changes nothing where no separator was doubled.
pub proof fn lemma_collapse_separators(s: Seq<char>)
    ensures
        separators_single(collapse_separators(s)),
        collapse_separators(s).len() <= s.len(),
        s.len() > 0 ==> collapse_separators(s).len() > 0 && collapse_separators(s).last()
            == s.last(),
        separators_single(s) ==> collapse_separators(s) == s,
    decreases s.len(),
{
    if s.len() > 0 {
        let front = s.drop_last();
        lemma_collapse_separators(front);
    }
}

/// Whether the path written as `path` has both a directory that holds it and
/// a file name.
pub open spec fn locatable(path: Seq<char>) -> bool {
    path_parent(path) is Some && path_file_name(path) is Some
}

/// `dir` with each run of separators reduced to a single one.
pub fn normalize_separators(dir: &str) -> (normal: String)
    ensures
        normal@ == collapse_separators(dir@),
        separators_single(normal@),
{
    let chars = chars_of(dir);
    let mut normal = String::new();
    let mut i: usize = 0;
    while i < chars.len()
        invariant
            i <= chars.len(),
            chars@ == dir@,
            normal@ == collapse_separators(dir@.take(i as int)),
        decreases chars.len() - i,
    {
        let doubled = i > 0 && chars[i - 1] == SEPARATOR && chars[i] == SEPARATOR;
        proof {
            assert(dir@.take(i + 1).drop_last() =~= dir@.take(i as int));
        }
        if !doubled {
            normal.push(chars[i]);
        }
        i += 1;
    }
    proof {
        assert(dir@.take(i as int) =~= dir@);
        lemma_collapse_separators(dir@);
    }
    normal
}

impl File {
    /// Records the file at `path`, created at `creation_date` and seen at
    /// `now`. Its age is the time from the one to the other.
    pub fn new(path: String, creation_date: Timestamp, now: Timestamp) -> (file: File)
        requires
            creation_date@ <= now@,
        ensures
            file@ == (FileView {
                path: path@,
                creation_date: creation_date@,
                time_since_creation: (now@ - creation_date@) as nat,
            }),
    {
        let time_since_creation = creation_date.elapsed_at(&now).unwrap();
        File { path, creation_date, time_since_creation }
    }

    /// The path as it was found.
    pub fn full_path(&self) -> (path: &str)
        ensures
            path@ == self@.path,
    {
        self.path.as_str()
    }

    /// When the file was created.
    pub fn creation_date(&self) -> (at: Timestamp)
        ensures
            at@ == self@.creation_date,
    {
        self.creation_date
    }

    /// The file's age when it was recorded.
    pub fn time_since_creation(&self) -> (age: Span)
        ensures
            age@ == self@.time_since_creation,
    {
        self.time_since_creation
    }

    /// Whether the file's path has both a directory that holds it and a file
    /// name, so that `get_path` and `get_file_name` can be asked.
    pub fn is_locatable(&self) -> (known: bool)
        ensures
            known == locatable(self@.path),
    {
        parent_of(self.path.as_str()).is_some() && file_name_of(self.path.as_str()).is_some()
    }

    /// The directory that holds the file, with no separator doubled.
    pub fn get_path(&self) -> (dir: String)
        requires
            path_parent(self@.path) is Some,
        ensures
            dir@ == collapse_separators(path_parent(self@.path)->0),
            separators_single(dir@),
    {
        let parent = parent_of(self.path.as_str()).unwrap();
        normalize_separators(parent.as_str())
    }

    /// The file's name without the directories that lead to it.
    pub fn get_file_name(&self) -> (name: String)
        requires
            path_file_name(self@.path) is Some,
        ensures
            name@ == path_file_name(self@.path)->0,
    {
        file_name_of(self.path.as_str()).unwrap()
    }

    /// The file's age in words.
    pub fn get_time_since_creation(&self) -> (text: String)
        ensures
            text@ == relative_age_text(
                (self@.time_since_creation / 1_000_000_000) as int,
                (self@.time_since_creation % 1_000_000_000) as int,
            ),
    {
        humanize(self.time_since_creation.as_secs(), self.time_since_creation.subsec_nanos())
    }
}

} // verus!

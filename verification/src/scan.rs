//! The tree scanner: from what a walk through a directory tree met, in the
//! order in which it met it, to the files that are to be judged by their age.
//!
//! The walk itself is the caller's; this module decides what becomes of each
//! thing the walk reports.

use vstd::prelude::*;
use crate::entry::{File, FileView};
use crate::time::Timestamp;

verus! {

/// One thing that a walk through the tree came upon.
#[derive(Debug, Clone, PartialEq, Eq)]
pub enum WalkItem {
    /// Something that could not be read: the directory entry itself, or its
    /// metadata.
    Unreadable,
    /// A directory. The walk goes into it; it is never listed.
    Directory,
    /// What is neither a directory nor a regular file, such as a symbolic
    /// link or a socket. It is passed over.
    Other,
    /// A regular file, with its creation time where the file system could
    /// tell it.
    RegularFile { path: String, created: Option<Timestamp> },
}

/// Why a scan was given up. `index` counts the walk's items from zero.
#[derive(Debug, Clone, Copy, PartialEq, Eq)]
pub enum ScanError {
    /// The item at `index` could not be read, or has no creation time.
    MetadataUnavailable { index: usize },
    /// The item at `index` was created after the scan's reference time.
    CreatedInFuture { index: usize },
}

/// What is wrong with `item`, the `index`-th of a walk judged at `now`, if
/// anything is.
pub open spec fn failure_at(item: WalkItem, index: int, now: Timestamp) -> Option<ScanError> {
    match item {
        WalkItem::Unreadable => Some(ScanError::MetadataUnavailable { index: index as usize }),
        WalkItem::Directory => None,
        WalkItem::Other => None,
        WalkItem::RegularFile { path, created: None } => Some(
            ScanError::MetadataUnavailable { index: index as usize },
        ),
        WalkItem::RegularFile { path, created: Some(at) } => if at@ > now@ {
            Some(ScanError::CreatedInFuture { index: index as usize })
        } else {
            None
        },
    }
}

/// Whether `index` is the first place in `items` at which something is wrong.
pub open spec fn is_first_failure(items: Seq<WalkItem>, index: int, now: Timestamp) -> bool {
    &&& 0 <= index < items.len()
    &&& failure_at(items[index], index, now) is Some
    &&& forall|j: int| 0 <= j < index ==> (#[trigger] failure_at(items[j], j, now)) is None
}

/// Whether `item` is listed: whether it is a regular file.
pub open spec fn is_listed(item: WalkItem) -> bool {
    item is RegularFile
}

/// The file that a sound, listed `item` becomes when it is judged at `now`.
pub open spec fn file_of(item: WalkItem, now: Timestamp) -> FileView {
    FileView {
        path: item->path@,
        creation_date: item->created->0@,
        time_since_creation: (now@ - item->created->0@) as nat,
    }
}

/// The files among `items`, in the order of the walk.
pub open spec fn listed_files(items: Seq<WalkItem>, now: Timestamp) -> Seq<FileView>
    decreases items.len(),
{
    if items.len() == 0 {
        Seq::empty()
    } else if is_listed(items.last()) {
        listed_files(items.drop_last(), now).push(file_of(items.last(), now))
    } else {
        listed_files(items.drop_last(), now)
    }
}

/// What a scan of `items` at `now` comes to: the first thing wrong, or, with
/// nothing wrong, the files in the order of the walk.
pub open spec fn scan_outcome(items: Seq<WalkItem>, now: Timestamp) -> Result<
    Seq<FileView>,
    ScanError,
> {
    if exists|i: int| is_first_failure(items, i, now) {
        let first = choose|i: int| is_first_failure(items, i, now);
        Err(failure_at(items[first], first, now)->0)
    } else {
        Ok(listed_files(items, now))
    }
}

/// What a list of files stands for.
pub open spec fn views_of(files: Seq<File>) -> Seq<FileView> {
    files.map_values(|file: File| file@)
}

/// At most one place is the first at which something is wrong.
pub proof fn lemma_first_failure_is_unique(
    items: Seq<WalkItem>,
    first: int,
    other: int,
    now: Timestamp,
)
    requires
        is_first_failure(items, first, now),
        is_first_failure(items, other, now),
    ensures
        first == other,
{
}

/// A walk that met no regular file and nothing unreadable lists no file:
/// so does a walk through an empty directory, and one through directories
/// alone.
pub proof fn lemma_only_directories_list_nothing(items: Seq<WalkItem>, now: Timestamp)
    requires
        forall|i: int| 0 <= i < items.len() ==> items[i] is Directory || items[i] is Other,
    ensures
        scan_outcome(items, now) == Ok::<Seq<FileView>, ScanError>(Seq::empty()),
{
    lemma_directories_are_not_listed(items, now);
}

proof fn lemma_directories_are_not_listed(items: Seq<WalkItem>, now: Timestamp)
    requires
        forall|i: int| 0 <= i < items.len() ==> items[i] is Directory || items[i] is Other,
    ensures
        listed_files(items, now) == Seq::<FileView>::empty(),
    decreases items.len(),
{
    if items.len() > 0 {
        lemma_directories_are_not_listed(items.drop_last(), now);
    }
}

/// Decides what becomes of one item of the walk: nothing for what is no
/// regular file, a file for a regular file that is sound, and the end of the
/// scan otherwise.
pub fn scan_item(item: WalkItem, index: usize, now: Timestamp) -> (found: Result<
    Option<File>,
    ScanError,
>)
    ensures
        match found {
            Ok(None) => failure_at(item, index as int, now) is None && !is_listed(item),
            Ok(Some(file)) => failure_at(item, index as int, now) is None && is_listed(item)
                && file@ == file_of(item, now),
            Err(error) => failure_at(item, index as int, now) == Some(error),
        },
{
    match item {
        WalkItem::Unreadable => Err(ScanError::MetadataUnavailable { index }),
        WalkItem::Directory => Ok(None),
        WalkItem::Other => Ok(None),
        WalkItem::RegularFile { path, created: None } => Err(
            ScanError::MetadataUnavailable { index },
        ),
        WalkItem::RegularFile { path, created: Some(at) } => {
            if at.elapsed_at(&now).is_some() {
                Ok(Some(File::new(path, at, now)))
            } else {
                Err(ScanError::CreatedInFuture { index })
            }
        },
    }
}

/// Lists the regular files among `items`, each with the age it had at
/// `now`. The scan is given up at the first item that is unreadable, has no
/// creation time, or was created after `now`.
pub fn read_folder_content(items: Vec<WalkItem>, now: Timestamp) -> (scan: Result<
    Vec<File>,
    ScanError,
>)
    ensures
        match scan {
            Ok(files) => scan_outcome(items@, now) == Ok::<Seq<FileView>, ScanError>(
                views_of(files@),
            ),
            Err(error) => scan_outcome(items@, now) == Err::<Seq<FileView>, ScanError>(error),
        },
{
    let ghost all = items@;
    assert(all.len() == items.len());
    let mut entries: Vec<File> = Vec::new();
    let mut index: usize = 0;
    for item in it: items.into_iter()
        invariant
            it.seq() == all,
            all.len() <= usize::MAX,
            index == it.index(),
            forall|j: int| 0 <= j < index ==> (#[trigger] failure_at(all[j], j, now)) is None,
            views_of(entries@) == listed_files(all.take(index as int), now),
    {
        proof {
            assert(all.take(index + 1).drop_last() =~= all.take(index as int));
        }
        match scan_item(item, index, now) {
            Ok(None) => {},
            Ok(Some(file)) => {
                entries.push(file);
            },
            Err(error) => {
                proof {
                    let first = choose|i: int| is_first_failure(all, i, now);
                    lemma_first_failure_is_unique(all, index as int, first, now);
                }
                return Err(error);
            },
        }
        index += 1;
    }
    proof {
        assert(all.take(index as int) =~= all);
    }
    Ok(entries)
}

} // verus!

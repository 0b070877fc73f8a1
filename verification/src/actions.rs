//! The file actions: what is to be done to each file of a batch, to delete
//! it or to flag it, and what becomes of the batch once an operation fails.
//!
//! Nothing here touches a file. A plan says what to do, in which order; the
//! caller does it and reports how each operation went.

use vstd::prelude::*;
use crate::entry::{File, SEPARATOR};
use crate::text::chars_of;

verus! {

/// The character before which a flag is put into a file's name.
pub const DOT: char = '.';

/// The text that marks a flagged file.
pub open spec fn flag_marker() -> Seq<char> {
    "_flagged"@
}

/// One operation on the file system.
#[derive(Debug, Clone, PartialEq, Eq)]
pub enum FileOp {
    /// Remove the file at `path` for good.
    Remove { path: String },
    /// Give the file at `from` the name `to`.
    Rename { from: String, to: String },
}

/// What a `FileOp` stands for.
pub enum FileOpView {
    Remove { path: Seq<char> },
    Rename { from: Seq<char>, to: Seq<char> },
}

impl View for FileOp {
    type V = FileOpView;

    open spec fn view(&self) -> FileOpView {
        match self {
            FileOp::Remove { path } => FileOpView::Remove { path: path@ },
            FileOp::Rename { from, to } => FileOpView::Rename { from: from@, to: to@ },
        }
    }
}

/// The last place before `upto` where `s` holds `c`; -1 where it holds none
/// there.
pub open spec fn last_place_of(s: Seq<char>, c: char, upto: int) -> int
    decreases upto,
{
    if upto <= 0 {
        -1
    } else if s[upto - 1] == c {
        upto - 1
    } else {
        last_place_of(s, c, upto - 1)
    }
}

/// Where the file's name begins in `path`: behind its last separator.
pub open spec fn name_start(path: Seq<char>) -> int {
    last_place_of(path, SEPARATOR, path.len() as int) + 1
}

/// The place in `path` before which the flag goes: the last dot of the
/// file's name. Dots in the names of directories take no part. None where
/// the file's name holds no dot.
pub open spec fn split_point(path: Seq<char>) -> Option<int> {
    let dot = last_place_of(path, DOT, path.len() as int);
    if dot >= name_start(path) {
        Some(dot)
    } else {
        None
    }
}

/// The name that flags the file at `path`: the path with the marker put in
/// at the split point. A path without a split point stays as it is.
pub open spec fn flagged(path: Seq<char>) -> Seq<char> {
    match split_point(path) {
        Some(at) => path.subrange(0, at) + flag_marker() + path.subrange(at, path.len() as int),
        None => path,
    }
}

/// The operations that delete the files of `entries`, one for each, in
/// their order.
pub open spec fn removal_plan(entries: Seq<File>) -> Seq<FileOpView> {
    Seq::new(entries.len(), |i: int| FileOpView::Remove { path: entries[i]@.path })
}

/// The operations that flag the files of `entries`, one for each, in their
/// order.
pub open spec fn flagging_plan(entries: Seq<File>) -> Seq<FileOpView> {
    Seq::new(
        entries.len(),
        |i: int| FileOpView::Rename { from: entries[i]@.path, to: flagged(entries[i]@.path) },
    )
}

/// What a plan stands for.
pub open spec fn plan_view(plan: Seq<FileOp>) -> Seq<FileOpView> {
    plan.map_values(|op: FileOp| op@)
}

proof fn lemma_last_place_behind(s: Seq<char>, c: char, upto: int, place: int)
    requires
        0 <= place < upto <= s.len(),
        s[place] == c,
        forall|i: int| place < i < upto ==> #[trigger] s[i] != c,
    ensures
        last_place_of(s, c, upto) == place,
    decreases upto,
{
    if upto - 1 > place {
        lemma_last_place_behind(s, c, upto - 1, place);
    }
}

proof fn lemma_last_place_bound(s: Seq<char>, c: char, upto: int)
    requires
        0 <= upto <= s.len(),
    ensures
        -1 <= last_place_of(s, c, upto) < upto,
        last_place_of(s, c, upto) >= 0 ==> s[last_place_of(s, c, upto)] == c,
        forall|i: int| last_place_of(s, c, upto) < i < upto ==> #[trigger] s[i] != c,
    decreases upto,
{
    if upto > 0 && s[upto - 1] != c {
        lemma_last_place_bound(s, c, upto - 1);
    }
}

/// The flag goes directly before the extension: where a path ends in a dot
/// and an extension that holds neither a dot nor a separator, the marker is
/// put in before that dot, whatever stands in front of it.
pub proof fn lemma_flag_goes_before_extension(front: Seq<char>, extension: Seq<char>)
    requires
        forall|i: int|
            0 <= i < extension.len() ==> #[trigger] extension[i] != DOT && extension[i]
                != SEPARATOR,
    ensures
        flagged(front.push(DOT) + extension) == front + flag_marker() + seq![DOT] + extension,
{
    let path = front.push(DOT) + extension;
    let dot = front.len() as int;
    lemma_last_place_behind(path, DOT, path.len() as int, dot);
    lemma_last_place_bound(path, SEPARATOR, path.len() as int);
}

/// A path whose file name holds no dot has no flagged name but itself.
pub proof fn lemma_flag_needs_a_dot(path: Seq<char>)
    requires
        forall|i: int| name_start(path) <= i < path.len() ==> #[trigger] path[i] != DOT,
    ensures
        flagged(path) == path,
{
    lemma_last_place_bound(path, DOT, path.len() as int);
    lemma_last_place_bound(path, SEPARATOR, path.len() as int);
}

/// One more than the last place of `c` in `chars`; zero where there is none.
fn find_behind_last(chars: &Vec<char>, c: char) -> (behind: usize)
    ensures
        behind == last_place_of(chars@, c, chars.len() as int) + 1,
        behind <= chars.len(),
{
    let mut i: usize = chars.len();
    while i > 0 && chars[i - 1] != c
        invariant
            i <= chars.len(),
            last_place_of(chars@, c, chars.len() as int) == last_place_of(chars@, c, i as int),
        decreases i,
    {
        i -= 1;
    }
    i
}

/// Finds the place in `path` before which the flag goes.
pub fn find_split_point(path: &str) -> (at: Option<usize>)
    ensures
        at is Some <==> split_point(path@) is Some,
        at matches Some(place) ==> split_point(path@) == Some(place as int) && place
            < path@.len(),
{
    let chars = chars_of(path);
    let start = find_behind_last(&chars, SEPARATOR);
    let behind_dot = find_behind_last(&chars, DOT);
    if behind_dot > start {
        Some(behind_dot - 1)
    } else {
        None
    }
}

/// The name that flags the file at `path`.
pub fn flagged_path(path: &str) -> (name: String)
    ensures
        name@ == flagged(path@),
{
    match find_split_point(path) {
        Some(at) => {
            let length = path.unicode_len();
            let mut name = String::from_str(path.substring_char(0, at));
            name.append("_flagged");
            name.append(path.substring_char(at, length));
            name
        },
        None => String::from_str(path),
    }
}

/// Plans the deletion of `entries`: for each file, in order, the removal of
/// what stands at its path.
pub fn delete_files(entries: &Vec<File>) -> (plan: Vec<FileOp>)
    ensures
        plan_view(plan@) == removal_plan(entries@),
{
    let mut plan: Vec<FileOp> = Vec::new();
    let mut i: usize = 0;
    while i < entries.len()
        invariant
            i <= entries.len(),
            plan.len() == i,
            forall|j: int|
                0 <= j < i ==> (#[trigger] plan@[j])@ == (FileOpView::Remove {
                    path: entries@[j]@.path,
                }),
        decreases entries.len() - i,
    {
        plan.push(FileOp::Remove { path: String::from_str(entries[i].full_path()) });
        i += 1;
    }
    plan
}

/// Plans the flagging of `entries`: for each file, in order, the change of
/// its name to the flagged one.
pub fn flag_files(entries: &Vec<File>) -> (plan: Vec<FileOp>)
    ensures
        plan_view(plan@) == flagging_plan(entries@),
{
    let mut plan: Vec<FileOp> = Vec::new();
    let mut i: usize = 0;
    while i < entries.len()
        invariant
            i <= entries.len(),
            plan.len() == i,
            forall|j: int|
                0 <= j < i ==> (#[trigger] plan@[j])@ == (FileOpView::Rename {
                    from: entries@[j]@.path,
                    to: flagged(entries@[j]@.path),
                }),
        decreases entries.len() - i,
    {
        let from = entries[i].full_path();
        plan.push(FileOp::Rename { from: String::from_str(from), to: flagged_path(from) });
        i += 1;
    }
    plan
}

/// What a `Batch` stands for.
pub struct BatchView {
    /// The operations of the batch, in the order in which they are due.
    pub plan: Seq<FileOpView>,
    /// How many of them have been carried out.
    pub done: nat,
    /// Whether the operation behind those has failed.
    pub failed: bool,
}

/// How far a batch has come.
#[derive(Debug, Clone, Copy, PartialEq, Eq)]
pub enum BatchStatus {
    /// An operation is due.
    Pending,
    /// Every operation has been carried out.
    Completed,
    /// The operation at `index` failed. Those before it stay done; those
    /// behind it are never tried.
    Failed { index: usize },
}

/// A plan on its way: the operations are handed out one by one, in order,
/// and the first that fails ends the batch.
#[derive(Debug)]
pub struct Batch {
    plan: Vec<FileOp>,
    done: usize,
    failed: bool,
}

impl View for Batch {
    type V = BatchView;

    closed spec fn view(&self) -> BatchView {
        BatchView { plan: plan_view(self.plan@), done: self.done as nat, failed: self.failed }
    }
}

impl BatchView {
    /// Whether an operation is due: none has failed and some are left.
    pub open spec fn pending(self) -> bool {
        !self.failed && self.done < self.plan.len()
    }

    /// How far the batch has come.
    pub open spec fn status(self) -> BatchStatus {
        if self.failed {
            BatchStatus::Failed { index: self.done as usize }
        } else if self.done < self.plan.len() {
            BatchStatus::Pending
        } else {
            BatchStatus::Completed
        }
    }

    /// The batch after the operation that was due went as `succeeded` says.
    /// A batch with nothing due stays as it is.
    pub open spec fn after(self, succeeded: bool) -> BatchView {
        if !self.pending() {
            self
        } else if succeeded {
            BatchView { done: self.done + 1, ..self }
        } else {
            BatchView { failed: true, ..self }
        }
    }
}

/// A failure ends the batch: nothing is due behind it, whatever is recorded
/// later changes nothing, and what was carried out before stays so.
pub proof fn lemma_failure_ends_batch(batch: BatchView, later: bool)
    requires
        batch.pending(),
    ensures
        !batch.after(false).pending(),
        batch.after(false).status() == (BatchStatus::Failed { index: batch.done as usize }),
        batch.after(false).done == batch.done,
        batch.after(false).after(later) == batch.after(false),
{
}

impl Batch {
    #[verifier::type_invariant]
    spec fn well_formed(self) -> bool {
        &&& self.done <= self.plan.len()
        &&& self.failed ==> self.done < self.plan.len()
    }

    /// A batch that has `plan` before it.
    pub fn new(plan: Vec<FileOp>) -> (batch: Batch)
        ensures
            batch@ == (BatchView { plan: plan_view(plan@), done: 0, failed: false }),
    {
        Batch { plan, done: 0, failed: false }
    }

    /// The operation that is due, if one is.
    pub fn next_operation(&self) -> (due: Option<&FileOp>)
        ensures
            due is Some <==> self@.pending(),
            due matches Some(op) ==> op@ == self@.plan[self@.done as int],
    {
        proof {
            use_type_invariant(self);
        }
        if !self.failed && self.done < self.plan.len() {
            Some(&self.plan[self.done])
        } else {
            None
        }
    }

    /// Takes note of how the operation that was due went.
    pub fn record(&mut self, succeeded: bool)
        ensures
            final(self)@ == old(self)@.after(succeeded),
    {
        proof {
            use_type_invariant(&*self);
        }
        if !self.failed && self.done < self.plan.len() {
            if succeeded {
                self.done = self.done + 1;
            } else {
                self.failed = true;
            }
        }
    }

    /// How far the batch has come.
    pub fn status(&self) -> (status: BatchStatus)
        ensures
            status == self@.status(),
    {
        proof {
            use_type_invariant(self);
        }
        if self.failed {
            BatchStatus::Failed { index: self.done }
        } else if self.done < self.plan.len() {
            BatchStatus::Pending
        } else {
            BatchStatus::Completed
        }
    }

    /// How many operations have been carried out.
    pub fn completed(&self) -> (count: usize)
        ensures
            count == self@.done,
    {
        self.done
    }
}

} // verus!

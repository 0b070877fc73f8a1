//! The age filter: which files are at least as old as the threshold.

use vstd::prelude::*;
use crate::entry::File;
use crate::time::Span;

verus! {

/// Whether a file of this age passes a filter with this threshold, both in
/// nanoseconds: whether it is as old as the threshold, or older.
pub open spec fn old_enough(age: nat, threshold: nat) -> bool {
    age >= threshold
}

/// The places in `entries` of the files that pass the filter, in rising
/// order.
pub open spec fn retained_places(entries: Seq<File>, threshold: nat) -> Seq<int>
    decreases entries.len(),
{
    if entries.len() == 0 {
        Seq::empty()
    } else if old_enough(entries.last()@.time_since_creation, threshold) {
        retained_places(entries.drop_last(), threshold).push(entries.len() - 1)
    } else {
        retained_places(entries.drop_last(), threshold)
    }
}

/// The files of `entries` that pass the filter, in the order in which they
/// stand in `entries`.
pub open spec fn retained(entries: Seq<File>, threshold: nat) -> Seq<File> {
    retained_places(entries, threshold).map_values(|place: int| entries[place])
}

/// The retained places are places of `entries`, they rise, and a place is
/// among them exactly if the file there is old enough.
pub proof fn lemma_retained_places(entries: Seq<File>, threshold: nat)
    ensures
        forall|k: int|
            0 <= k < retained_places(entries, threshold).len() ==> {
                let place = #[trigger] retained_places(entries, threshold)[k];
                0 <= place < entries.len() && old_enough(
                    entries[place]@.time_since_creation,
                    threshold,
                )
            },
        forall|k: int, l: int|
            0 <= k < l < retained_places(entries, threshold).len() ==> #[trigger] retained_places(
                entries,
                threshold,
            )[k] < #[trigger] retained_places(entries, threshold)[l],
        forall|place: int|
            0 <= place < entries.len() && old_enough(
                (#[trigger] entries[place])@.time_since_creation,
                threshold,
            ) ==> retained_places(entries, threshold).contains(place),
    decreases entries.len(),
{
    if entries.len() > 0 {
        let front = entries.drop_last();
        let places = retained_places(entries, threshold);
        let before = retained_places(front, threshold);
        lemma_retained_places(front, threshold);
        assert forall|place: int|
            0 <= place < entries.len() && old_enough(
                (#[trigger] entries[place])@.time_since_creation,
                threshold,
            ) implies places.contains(place) by {
            if place < entries.len() - 1 {
                assert(old_enough(front[place]@.time_since_creation, threshold));
                let k = choose|k: int| 0 <= k < before.len() && before[k] == place;
                assert(places[k] == place);
            } else {
                assert(places[places.len() - 1] == place);
            }
        }
    }
}

/// A file is among the retained ones exactly if it is among `entries` and
/// old enough.
pub proof fn lemma_retained_membership(entries: Seq<File>, threshold: nat, file: File)
    ensures
        retained(entries, threshold).contains(file) <==> entries.contains(file) && old_enough(
            file@.time_since_creation,
            threshold,
        ),
{
    let places = retained_places(entries, threshold);
    let kept = retained(entries, threshold);
    lemma_retained_places(entries, threshold);
    if entries.contains(file) && old_enough(file@.time_since_creation, threshold) {
        let place = choose|place: int| 0 <= place < entries.len() && entries[place] == file;
        let k = choose|k: int| 0 <= k < places.len() && places[k] == place;
        assert(kept[k] == file);
    }
}

/// The threshold is inclusive: a file passes the filter whose threshold is
/// the file's own age, and fails every filter with a longer threshold.
pub proof fn lemma_threshold_is_inclusive(
    entries: Seq<File>,
    entry: File,
    shorter: nat,
    longer: nat,
)
    requires
        entries.contains(entry),
        entry@.time_since_creation == shorter,
        shorter < longer,
    ensures
        retained(entries, shorter).contains(entry),
        !retained(entries, longer).contains(entry),
{
    lemma_retained_membership(entries, shorter, entry);
    lemma_retained_membership(entries, longer, entry);
}

/// Filtering keeps the order: of two files in the result, the one that
/// stands first there stood first in `entries` too.
pub proof fn lemma_filter_preserves_order(
    entries: Seq<File>,
    threshold: nat,
    first: int,
    second: int,
)
    requires
        0 <= first < second < retained(entries, threshold).len(),
    ensures
        exists|i: int, j: int|
            0 <= i < j < entries.len() && #[trigger] entries[i] == retained(
                entries,
                threshold,
            )[first] && #[trigger] entries[j] == retained(entries, threshold)[second],
{
    let places = retained_places(entries, threshold);
    lemma_retained_places(entries, threshold);
    let i = places[first];
    let j = places[second];
    assert(0 <= i < j < entries.len() && entries[i] == retained(entries, threshold)[first]
        && entries[j] == retained(entries, threshold)[second]);
}

/// Keeps the files that are at least as old as `compare_param`, in the order
/// in which they came.
pub fn filter_files(entries: Vec<File>, compare_param: Span) -> (kept: Vec<File>)
    ensures
        kept@ == retained(entries@, compare_param@),
{
    let ghost all = entries@;
    let mut kept: Vec<File> = Vec::new();
    for entry in it: entries.into_iter()
        invariant
            it.seq() == all,
            kept@ == retained(all.take(it.index()), compare_param@),
    {
        proof {
            let seen = all.take(it.index());
            let next = all.take(it.index() + 1);
            assert(next.drop_last() =~= seen);
            lemma_retained_places(seen, compare_param@);
        }
        if entry.time_since_creation().at_least(&compare_param) {
            kept.push(entry);
        }
    }
    proof {
        assert(all.take(all.len() as int) =~= all);
    }
    kept
}

} // verus!

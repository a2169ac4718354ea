//! What holds of the lists that scans give.
use vstd::multiset::Multiset;
use vstd::prelude::*;
use vstd::seq_lib::{to_multiset_build, to_multiset_contains, to_multiset_len, to_multiset_remove};

use crate::file::{shown, shown_size, EntryView, FileView};
use crate::files::{listing, readable};
use crate::path::joined;

verus! {

/// Whether a scan could read a member's entry.
pub open spec fn is_readable(o: Option<EntryView>) -> bool {
    o is Some
}

/// A scan with `n` readable members gives a list of exactly `n` entries, one
/// per readable member and in scan order: each has the member's name, a path
/// that is the directory joined with that name, and the member's size (0
/// where its metadata could not be read).
pub proof fn lemma_one_entry_per_readable_member(dir: Seq<char>, scan: Seq<Option<EntryView>>)
    ensures
        listing(dir, scan).len() == scan.filter(|o: Option<EntryView>| is_readable(o)).len(),
        listing(dir, scan).len() == readable(scan).len(),
        forall|i: int|
            0 <= i < listing(dir, scan).len() ==> {
                let f = #[trigger] listing(dir, scan)[i];
                &&& f.0 == readable(scan)[i].0
                &&& f.1 == joined(dir, f.0)
                &&& f.2 == shown_size(readable(scan)[i].1)
            },
    decreases scan.len(),
{
    if scan.len() > 0 {
        lemma_one_entry_per_readable_member(dir, scan.drop_last());
        scan.drop_last().lemma_filter_push(scan.last(), |o: Option<EntryView>| is_readable(o));
        assert(scan.drop_last().push(scan.last()) =~= scan);
    } else {
        reveal(Seq::filter);
    }
}

/// The entries that one scanned member adds to a list.
pub open spec fn entries_of(dir: Seq<char>, o: Option<EntryView>) -> Multiset<FileView> {
    match o {
        Some(e) => Multiset::singleton(shown(dir, e)),
        None => Multiset::empty(),
    }
}

proof fn lemma_listing_push(dir: Seq<char>, scan: Seq<Option<EntryView>>, o: Option<EntryView>)
    ensures
        listing(dir, scan.push(o)).to_multiset() =~= listing(dir, scan).to_multiset().add(
            entries_of(dir, o),
        ),
{
    broadcast use vstd::multiset::group_multiset_axioms;

    assert(scan.push(o).drop_last() =~= scan);
    match o {
        Some(e) => {
            assert(listing(dir, scan.push(o)) =~= listing(dir, scan).push(shown(dir, e)));
            to_multiset_build(listing(dir, scan), shown(dir, e));
        },
        None => {},
    }
}

proof fn lemma_listing_remove(dir: Seq<char>, scan: Seq<Option<EntryView>>, j: int)
    requires
        0 <= j < scan.len(),
    ensures
        listing(dir, scan).to_multiset() =~= listing(dir, scan.remove(j)).to_multiset().add(
            entries_of(dir, scan[j]),
        ),
    decreases scan.len(),
{
    broadcast use vstd::multiset::group_multiset_axioms;

    let front = scan.drop_last();
    assert(front.push(scan.last()) =~= scan);
    lemma_listing_push(dir, front, scan.last());
    if j == scan.len() - 1 {
        assert(scan.remove(j) =~= front);
    } else {
        lemma_listing_remove(dir, front, j);
        let rest = scan.remove(j);
        assert(rest =~= front.remove(j).push(scan.last()));
        lemma_listing_push(dir, front.remove(j), scan.last());
    }
}

/// Two scans that report the same members, in whatever order, give lists
/// that hold the same entries, each as often, in whatever order.
pub proof fn lemma_listing_ignores_scan_order(
    dir: Seq<char>,
    a: Seq<Option<EntryView>>,
    b: Seq<Option<EntryView>>,
)
    requires
        a.to_multiset() == b.to_multiset(),
    ensures
        listing(dir, a).to_multiset() == listing(dir, b).to_multiset(),
    decreases a.len(),
{
    broadcast use vstd::multiset::group_multiset_axioms;

    to_multiset_len(a);
    to_multiset_len(b);
    if a.len() == 0 {
        assert(a =~= b);
    } else {
        let x = a.last();
        let front = a.drop_last();
        assert(front.push(x) =~= a);
        to_multiset_build(front, x);
        to_multiset_contains(b, x);
        let j = b.index_of(x);
        to_multiset_remove(b, j);
        assert(front.to_multiset() =~= b.remove(j).to_multiset());
        lemma_listing_ignores_scan_order(dir, front, b.remove(j));
        lemma_listing_remove(dir, b, j);
        lemma_listing_push(dir, front, x);
    }
}

} // verus!

//! The entry list of one directory scan.
use vstd::prelude::*;

use crate::file::{shown, EntryView, File, FileView, ScannedEntry};

verus! {

#[verifier::external_type_specification]
#[verifier::external_body]
#[verifier::reject_recursive_types(A)]
pub struct ExVector<A>(im::Vector<A>);

/// The entries that an `im::Vector` holds, front to back.
pub uninterp spec fn vector_items(v: im::Vector<File>) -> Seq<File>;

/// Relies on `im::Vector::new`: the vector it builds is empty.
#[verifier::external_body]
fn empty_vector() -> (r: im::Vector<File>)
    ensures
        vector_items(r) == Seq::<File>::empty(),
{
    im::Vector::new()
}

/// Relies on `im::Vector::push_back`: the value is appended at the back and
/// the entries before it stay as they were.
#[verifier::external_body]
fn push_back(v: &mut im::Vector<File>, f: File)
    ensures
        vector_items(*final(v)) == vector_items(*old(v)).push(f),
{
    v.push_back(f)
}

/// The members of a scan whose entry could be read, in scan order.
pub open spec fn readable(scan: Seq<Option<EntryView>>) -> Seq<EntryView>
    decreases scan.len(),
{
    if scan.len() == 0 {
        Seq::empty()
    } else {
        let before = readable(scan.drop_last());
        match scan.last() {
            Some(e) => before.push(e),
            None => before,
        }
    }
}

/// The list shown for a scan of directory `dir`: one entry per readable
/// member, in scan order.
pub open spec fn listing(dir: Seq<char>, scan: Seq<Option<EntryView>>) -> Seq<FileView> {
    readable(scan).map_values(|e: EntryView| shown(dir, e))
}

/// What a scan reports of one member, or `None` where its entry could not be
/// read.
pub open spec fn entry_view(o: Option<ScannedEntry>) -> Option<EntryView> {
    match o {
        Some(e) => Some(e@),
        None => None,
    }
}

/// What a scan reports, member by member.
pub open spec fn scan_view(entries: Seq<Option<ScannedEntry>>) -> Seq<Option<EntryView>> {
    entries.map_values(|o: Option<ScannedEntry>| entry_view(o))
}

/// The entries of one directory scan, in the order the scan found them.
pub struct Files {
    pub files: im::Vector<File>,
}

impl View for Files {
    type V = Seq<FileView>;

    open spec fn view(&self) -> Seq<FileView> {
        vector_items(self.files).map_values(|f: File| f@)
    }
}

/// The list after a scan of directory `dir`: `None` stands for a directory
/// that could not be opened, and gives an empty list.
pub open spec fn scan_listing(dir: Seq<char>, scan: Option<Seq<Option<ScannedEntry>>>) -> Seq<
    FileView,
> {
    match scan {
        Some(entries) => listing(dir, scan_view(entries)),
        None => Seq::empty(),
    }
}

impl Default for Files {
    /// An empty list.
    fn default() -> (r: Files)
        ensures
            r@ == Seq::<FileView>::empty(),
    {
        let files = empty_vector();
        assert(vector_items(files).map_values(|f: File| f@) =~= Seq::empty());
        Files { files }
    }
}

impl Files {
    /// The list for directory `dir` whose scan found `entries`; members whose
    /// entry could not be read (`None`) are left out.
    pub fn from_entries(dir: &str, entries: &Vec<Option<ScannedEntry>>) -> (r: Files)
        ensures
            r@ == listing(dir@, scan_view(entries@)),
    {
        let mut files = empty_vector();
        let mut i: usize = 0;
        while i < entries.len()
            invariant
                i <= entries.len(),
                vector_items(files).map_values(|f: File| f@) == listing(
                    dir@,
                    scan_view(entries@.subrange(0, i as int)),
                ),
            decreases entries.len() - i,
        {
            let ghost before = vector_items(files);
            let ghost done = scan_view(entries@.subrange(0, i as int));
            let ghost next = scan_view(entries@.subrange(0, i + 1));
            assert(next.drop_last() =~= done);
            match &entries[i] {
                Some(e) => {
                    let f = File::from_entry(dir, e);
                    push_back(&mut files, f);
                    assert(next.last() == Some(e@));
                    assert(readable(next) == readable(done).push(e@));
                    assert(vector_items(files).map_values(|f: File| f@) =~= before.map_values(
                        |f: File| f@,
                    ).push(f@));
                    assert(listing(dir@, next) =~= listing(dir@, done).push(shown(dir@, e@)));
                    assert(vector_items(files).map_values(|f: File| f@) =~= listing(
                        dir@,
                        next,
                    ));
                },
                None => {
                    assert(next.last() is None);
                    assert(listing(dir@, next) =~= listing(dir@, done));
                },
            }
            i += 1;
        }
        assert(entries@.subrange(0, i as int) =~= entries@);
        Files { files }
    }

    /// The list for directory `dir` after a scan; `None` stands for a
    /// directory that could not be opened, whose list is empty.
    pub fn from_scan(dir: &str, scan: &Option<Vec<Option<ScannedEntry>>>) -> (r: Files)
        ensures
            r@ == scan_listing(
                dir@,
                match scan {
                    Some(entries) => Some(entries@),
                    None => None,
                },
            ),
            scan is None ==> r@.len() == 0,
    {
        match scan {
            Some(entries) => Files::from_entries(dir, entries),
            None => Files::default(),
        }
    }
}

} // verus!

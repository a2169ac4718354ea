//! One entry of a directory listing.
use vstd::prelude::*;

use crate::path::{join, joined};

verus! {

/// What a scan reports of one directory member: its name, and its size where
/// its metadata could be read.
pub type EntryView = (Seq<char>, Option<u64>);

/// What is shown of one directory member: its name, its full path and its size.
pub type FileView = (Seq<char>, Seq<char>, u64);

/// What one scan reports of one directory member: its name, and its size in
/// bytes where its metadata could be read.
#[derive(Debug)]
pub struct ScannedEntry {
    pub name: String,
    pub size: Option<u64>,
}

impl View for ScannedEntry {
    type V = EntryView;

    open spec fn view(&self) -> EntryView {
        (self.name@, self.size)
    }
}

/// A directory member as it is shown: its name, its full path and its size
/// in bytes.
#[derive(Clone, Debug)]
pub struct File {
    pub name: String,
    pub path: String,
    pub size: u64,
}

impl View for File {
    type V = FileView;

    open spec fn view(&self) -> FileView {
        (self.name@, self.path@, self.size)
    }
}

/// The size shown for a member: what its metadata gave, or 0 where it could
/// not be read.
pub open spec fn shown_size(size: Option<u64>) -> u64 {
    match size {
        Some(n) => n,
        None => 0,
    }
}

/// What is shown of member `e` of directory `dir`.
pub open spec fn shown(dir: Seq<char>, e: EntryView) -> FileView {
    (e.0, joined(dir, e.0), shown_size(e.1))
}

impl File {
    /// Builds the entry shown for member `e` of directory `dir`; a member
    /// whose metadata could not be read is shown with size 0.
    pub fn from_entry(dir: &str, e: &ScannedEntry) -> (r: File)
        ensures
            r@ == shown(dir@, e@),
            e.size is None ==> r.size == 0,
    {
        let path = join(dir, e.name.as_str());
        let size: u64 = match e.size {
            Some(n) => n,
            None => 0,
        };
        File { name: e.name.clone(), path, size }
    }
}

} // verus!

//! The state that the interface shows: the path typed in, the entries of its
//! last scan, and an error text.
use vstd::prelude::*;

use crate::file::{FileView, ScannedEntry};
use crate::files::{scan_listing, Files};

verus! {

/// The state that the interface shows.
pub struct AppData {
    /// The directory path typed in.
    pub path: String,
    /// The entries of the last scan.
    pub files: Files,
    /// An error text for the interface; scans leave it as it is.
    pub err: String,
}

impl Default for AppData {
    /// No path, no entries, no error.
    fn default() -> (r: AppData)
        ensures
            r.path@ == Seq::<char>::empty(),
            r.files@ == Seq::<FileView>::empty(),
            r.err@ == Seq::<char>::empty(),
    {
        AppData { path: String::new(), files: Files::default(), err: String::new() }
    }
}

impl AppData {
    /// Replaces the entries with those of a scan of `self.path`; `None`
    /// stands for a directory that could not be opened. The path and the
    /// error text stay as they were.
    pub fn load(&mut self, scan: &Option<Vec<Option<ScannedEntry>>>)
        ensures
            final(self).path@ == old(self).path@,
            final(self).err@ == old(self).err@,
            final(self).files@ == scan_listing(
                old(self).path@,
                match scan {
                    Some(entries) => Some(entries@),
                    None => None,
                },
            ),
    {
        self.files = Files::from_scan(self.path.as_str(), scan);
    }
}

} // verus!

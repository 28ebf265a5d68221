//! One filesystem entry: a path together with a human-readable description.

use vstd::prelude::*;
use crate::paths::FsPath;

verus! {

/// A named reference to one filesystem path. The enumerator creates entries
/// for the source tree; the worker builds the matching destination entries.
#[derive(Debug)]
pub struct Entry {
    /// Human-readable description: for a destination entry, the textual form
    /// of the path relative to the destination root.
    pub description: Vec<u8>,
    /// The entry's path.
    pub path: FsPath,
}

/// The mathematical value of an entry.
pub struct EntryView {
    pub description: Seq<u8>,
    pub path: Seq<Seq<u8>>,
}

impl View for Entry {
    type V = EntryView;

    open spec fn view(&self) -> EntryView {
        EntryView { description: self.description@, path: self.path@ }
    }
}

impl Entry {
    /// An entry with the given description and path.
    pub fn new(description: Vec<u8>, path: FsPath) -> (r: Entry)
        ensures
            r@ == (EntryView { description: description@, path: path@ }),
    {
        Entry { description, path }
    }

    /// A copy of this entry.
    pub fn clone_entry(&self) -> (r: Entry)
        ensures
            r@ == self@,
    {
        Entry {
            description: crate::paths::clone_bytes(&self.description),
            path: self.path.clone_path(),
        }
    }
}

} // verus!

//! The per-row display model: the projection of one directory entry
//! that a list renderer binds to.

use crate::event::DirEntry;
use vstd::prelude::*;

verus! {

/// One display row: whether the entry is a directory, and its name.
/// Rows are discarded and rebuilt wholesale on every refresh; the core
/// only produces them, the surrounding application binds them.
pub struct FileData {
    dir: bool,
    name: String,
}

impl FileData {
    /// Whether the row stands for a directory.
    pub closed spec fn spec_is_directory(&self) -> bool {
        self.dir
    }

    /// The row's displayed name.
    pub closed spec fn spec_name(&self) -> Seq<char> {
        self.name@
    }

    /// Whether the row is the faithful projection of `entry`.
    pub open spec fn matches_entry(&self, entry: DirEntry) -> bool {
        self.spec_is_directory() == entry.spec_is_directory() && self.spec_name()
            == entry.spec_name()
    }

    /// Project one directory entry into its display row.
    pub fn new(entry: DirEntry) -> (r: FileData)
        ensures
            r.matches_entry(entry),
    {
        match entry {
            DirEntry::Directory { name } => FileData { dir: true, name },
            DirEntry::File { name } => FileData { dir: false, name },
        }
    }

    pub fn is_directory(&self) -> (r: bool)
        ensures
            r == self.spec_is_directory(),
    {
        self.dir
    }

    pub fn name(&self) -> (r: &String)
        ensures
            r@ == self.spec_name(),
    {
        &self.name
    }
}

impl Clone for FileData {
    fn clone(&self) -> (res: Self)
        ensures
            res == *self,
    {
        FileData { dir: self.dir, name: self.name.clone() }
    }
}

impl Default for FileData {
    /// The default row: a file with an empty name.
    fn default() -> (r: Self)
        ensures
            !r.spec_is_directory(),
            r.spec_name() == Seq::<char>::empty(),
    {
        FileData { dir: false, name: String::new() }
    }
}

} // verus!

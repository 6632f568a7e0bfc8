//! Navigation state for the remote directory tree: the current path,
//! the last-fetched listing, and the explicit user commands that
//! mutate them.

use crate::event::DirEntry;
use vstd::prelude::*;

verus! {

/// A request the navigation logic asks the surrounding application to
/// dispatch to the backend collaborator, fire-and-forget.  `Enter` and
/// `Up` imply a fresh listing fetch whose result is delivered later;
/// `Resync` asks the backend to re-index the remote tree, completion
/// being observed only through a reload-finished event.
pub enum NavCommand {
    Enter { name: String },
    Up,
    Resync,
}

/// Whether `entry` is a directory displayed under `name`.
pub open spec fn entry_is_directory_named(entry: DirEntry, name: Seq<char>) -> bool {
    entry.spec_is_directory() && entry.spec_name() == name
}

/// Whether a listing shows a directory named `name`.
pub open spec fn listing_has_directory(listing: Seq<DirEntry>, name: Seq<char>) -> bool {
    exists|i: int| 0 <= i < listing.len() && #[trigger] entry_is_directory_named(listing[i], name)
}

/// The current directory (empty path = root) and the listing fetched
/// for it last.  The listing is stale, but still displayed, between a
/// navigation command and the delivery of its fresh listing; a refresh
/// always replaces it wholesale.
pub struct NavState {
    pub current_path: Vec<String>,
    pub listing: Vec<DirEntry>,
}

impl NavState {
    /// A fresh navigation state: at the root, nothing listed yet.
    pub fn new() -> (nav: NavState)
        ensures
            nav.current_path@ == Seq::<String>::empty(),
            nav.listing@ == Seq::<DirEntry>::empty(),
    {
        NavState { current_path: Vec::new(), listing: Vec::new() }
    }

    /// Whether the current listing shows a directory named `name`.
    pub fn has_directory(&self, name: &String) -> (r: bool)
        ensures
            r == listing_has_directory(self.listing@, name@),
    {
        let mut i: usize = 0;
        while i < self.listing.len()
            invariant
                i <= self.listing.len(),
                forall|j: int|
                    0 <= j < i ==> !entry_is_directory_named(#[trigger] self.listing@[j], name@),
            decreases self.listing.len() - i,
        {
            let entry = &self.listing[i];
            if entry.is_directory() && *entry.name() == *name {
                assert(entry_is_directory_named(self.listing@[i as int], name@));
                return true;
            }
            i += 1;
        }
        false
    }

    /// Descend into `name`.  Valid only when the current listing shows
    /// `name` as a directory: then the segment is pushed and the
    /// backend is asked for a fresh listing.  A file of that name, or
    /// no such entry, is rejected: no path change, no backend call.
    pub fn enter(&mut self, name: &String) -> (cmd: Option<NavCommand>)
        ensures
            cmd is Some <==> listing_has_directory(old(self).listing@, name@),
            cmd matches Some(c) ==> c == (NavCommand::Enter { name: *name }),
            cmd is Some ==> final(self).current_path@ == old(self).current_path@.push(*name),
            cmd is None ==> final(self).current_path@ == old(self).current_path@,
            final(self).listing@ == old(self).listing@,
    {
        if self.has_directory(name) {
            self.current_path.push(name.clone());
            Some(NavCommand::Enter { name: name.clone() })
        } else {
            None
        }
    }

    /// Ascend one level.  Valid only away from the root: then the last
    /// segment is popped and the backend is asked for a fresh listing.
    /// At the root this is a no-op: path and listing are unchanged and
    /// no backend request is issued.
    pub fn up(&mut self) -> (cmd: Option<NavCommand>)
        ensures
            cmd is Some <==> old(self).current_path@.len() > 0,
            cmd matches Some(c) ==> c is Up,
            cmd is Some ==> final(self).current_path@ == old(self).current_path@.drop_last(),
            cmd is None ==> *final(self) == *old(self),
            final(self).listing@ == old(self).listing@,
    {
        if self.current_path.len() > 0 {
            self.current_path.pop();
            Some(NavCommand::Up)
        } else {
            None
        }
    }

    /// Ask the backend to re-index the remote tree from scratch.  This
    /// mutates nothing here: completion is observed indirectly through
    /// a reload-finished event.
    pub fn resync(&self) -> (cmd: NavCommand)
        ensures
            cmd is Resync,
    {
        NavCommand::Resync
    }

    /// A fresh listing arrived for the current path: replace the old
    /// one wholesale.  Refreshes are never incremental, because the
    /// remote index can change shape between requests.
    pub fn replace_listing(&mut self, entries: Vec<DirEntry>)
        ensures
            final(self).listing@ == entries@,
            final(self).current_path@ == old(self).current_path@,
    {
        self.listing = entries;
    }

    /// Whether the current directory is the root.
    pub fn at_root(&self) -> (r: bool)
        ensures
            r == (self.current_path@.len() == 0),
    {
        self.current_path.len() == 0
    }
}

} // verus!

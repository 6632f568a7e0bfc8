//! Events the backend asserts about a session, and the entries of a
//! remote directory listing.

use vstd::prelude::*;

verus! {

/// Identification strings received after a connection is established.
pub struct VersionDetails {
    pub project: String,
    pub version: String,
}

impl Clone for VersionDetails {
    fn clone(&self) -> (res: Self)
        ensures
            res == *self,
    {
        VersionDetails { project: self.project.clone(), version: self.version.clone() }
    }
}

/// One fact the backend asserts about the session.  Events are immutable
/// values; the relay moves them across the thread boundary unchanged.
pub enum Event {
    /// The backend established a live session.
    Connected,
    /// Identification received after connecting.
    VersionInfo { project: String, version: String },
    /// A backend-side directory resynchronization began.
    ReloadStarted,
    /// The resynchronization advanced.
    ReloadProgressed,
    /// The resynchronization completed.
    ReloadFinished,
    /// The session ended, gracefully or not.
    Disconnected,
    /// A non-fatal condition to surface to the user.
    Error { message: String },
}

/// One entry of a remote directory listing.
pub enum DirEntry {
    Directory { name: String },
    File { name: String },
}

impl DirEntry {
    /// The entry's displayed name.
    pub open spec fn spec_name(&self) -> Seq<char> {
        match self {
            DirEntry::Directory { name } => name@,
            DirEntry::File { name } => name@,
        }
    }

    /// Whether the entry denotes a directory.
    pub open spec fn spec_is_directory(&self) -> bool {
        self is Directory
    }

    pub fn name(&self) -> (r: &String)
        ensures
            r@ == self.spec_name(),
    {
        match self {
            DirEntry::Directory { name } => name,
            DirEntry::File { name } => name,
        }
    }

    pub fn is_directory(&self) -> (r: bool)
        ensures
            r == self.spec_is_directory(),
    {
        match self {
            DirEntry::Directory { .. } => true,
            DirEntry::File { .. } => false,
        }
    }
}

impl Clone for DirEntry {
    fn clone(&self) -> (res: Self)
        ensures
            res == *self,
    {
        match self {
            DirEntry::Directory { name } => DirEntry::Directory { name: name.clone() },
            DirEntry::File { name } => DirEntry::File { name: name.clone() },
        }
    }
}

} // verus!

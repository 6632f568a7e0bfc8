//! The rendered state handed to the UI sink: everything the interface
//! shows, derived deterministically from backend-originated facts.

use crate::event::VersionDetails;
use crate::file_data::FileData;
use crate::session::SessionPhase;
use vstd::prelude::*;

verus! {

/// Whether the reload control is operable in phase `p`: only while a
/// session is live and no resynchronization is running.
pub open spec fn reload_control_enabled(p: SessionPhase) -> bool {
    p is Connected || p is Synchronized
}

/// Whether the navigation controls are operable in phase `p`:
/// connectivity loss disables them.
pub open spec fn navigation_controls_enabled(p: SessionPhase) -> bool {
    !(p is Disconnected)
}

/// Whether the progress indication is shown in phase `p`: it runs
/// during a resynchronization and is cleared when one ends.
pub open spec fn progress_shown(p: SessionPhase) -> bool {
    p is Synchronizing
}

/// One rendered snapshot, produced on the consumer thread once per
/// processed event or navigation command.
pub struct Snapshot {
    pub phase: SessionPhase,
    pub version: Option<VersionDetails>,
    pub progress_active: bool,
    pub current_path: Vec<String>,
    pub rows: Vec<FileData>,
    pub transient_error: Option<String>,
    pub reload_enabled: bool,
    pub up_enabled: bool,
    pub navigation_enabled: bool,
}

} // verus!

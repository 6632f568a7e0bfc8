//! The consumer-thread facade: one session reducer plus one navigation
//! state, the sole owners of UI-visible state, and the rendering of
//! snapshots for the UI sink.

use crate::event::{DirEntry, Event, VersionDetails};
use crate::file_data::FileData;
use crate::navigation::{listing_has_directory, NavCommand, NavState};
use crate::session::{
    accepts_version, event_ignored, phase_after, pulses, triggers_refresh, ReducerEffect, Session,
    SessionPhase,
};
use crate::snapshot::{
    navigation_controls_enabled, progress_shown, reload_control_enabled, Snapshot,
};
use vstd::prelude::*;

verus! {

/// The single-threaded consumer: owns the session state machine and
/// the navigation state, and is the only writer of either.  The relay
/// thread only ever moves immutable events; everything here runs on
/// the consumer thread.
pub struct Client {
    pub session: Session,
    pub nav: NavState,
    pub transient_error: Option<String>,
}

impl Client {
    pub open spec fn wf(&self) -> bool {
        self.session.wf()
    }

    /// A fresh consumer: disconnected, at the root, nothing listed.
    pub fn new() -> (c: Client)
        ensures
            c.wf(),
            c.session.phase == SessionPhase::Disconnected,
            c.session.version is None,
            c.session.history@ == Seq::<Event>::empty(),
            c.nav.current_path@ == Seq::<String>::empty(),
            c.nav.listing@ == Seq::<DirEntry>::empty(),
            c.transient_error is None,
    {
        Client { session: Session::new(), nav: NavState::new(), transient_error: None }
    }

    /// Consume one backend event.  The session phase and identification
    /// follow the reducer; navigation state is never touched by an
    /// event itself — a triggered refresh arrives separately through
    /// `deliver_listing`.  A transient error is remembered for the next
    /// snapshot and cleared by any later event.
    pub fn handle_event(&mut self, e: Event) -> (eff: ReducerEffect)
        requires
            old(self).wf(),
        ensures
            final(self).wf(),
            final(self).session.history@ == old(self).session.history@.push(e),
            final(self).session.phase == phase_after(old(self).session.phase, e),
            accepts_version(old(self).session.phase, e) ==> (e matches Event::VersionInfo {
                project,
                version,
            } ==> final(self).session.version == Some(VersionDetails { project, version })),
            !accepts_version(old(self).session.phase, e) ==> final(self).session.version == old(
                self,
            ).session.version,
            eff.refresh == triggers_refresh(old(self).session.phase, e),
            eff.pulse == pulses(old(self).session.phase, e),
            e matches Event::Error { message } ==> eff.notice == Some(message),
            !(e is Error) ==> eff.notice is None,
            eff.ignored == event_ignored(old(self).session.phase, e),
            final(self).transient_error == eff.notice,
            final(self).nav == old(self).nav,
    {
        let eff = self.session.apply(e);
        self.transient_error = match &eff.notice {
            Some(message) => Some(message.clone()),
            None => None,
        };
        eff
    }

    /// The relay's channel closed without an explicit disconnect: the
    /// disconnected transition is synthesized so the interface can
    /// never freeze in a stale connected state.
    pub fn channel_closed(&mut self)
        requires
            old(self).wf(),
        ensures
            final(self).wf(),
            final(self).session.history@ == old(self).session.history@.push(Event::Disconnected),
            final(self).session.phase == SessionPhase::Disconnected,
            final(self).session.version == old(self).session.version,
            final(self).transient_error is None,
            final(self).nav == old(self).nav,
    {
        let _ = self.handle_event(Event::Disconnected);
    }

    /// Descend into `name`; see `NavState::enter`.  The session is
    /// untouched: the command is dispatched fire-and-forget and its
    /// consequences arrive later as events and a delivered listing.
    pub fn enter(&mut self, name: &String) -> (cmd: Option<NavCommand>)
        requires
            old(self).wf(),
        ensures
            final(self).wf(),
            final(self).session == old(self).session,
            final(self).transient_error == old(self).transient_error,
            cmd is Some <==> listing_has_directory(old(self).nav.listing@, name@),
            cmd matches Some(c) ==> c == (NavCommand::Enter { name: *name }),
            cmd is Some ==> final(self).nav.current_path@ == old(self).nav.current_path@.push(
                *name,
            ),
            cmd is None ==> final(self).nav.current_path@ == old(self).nav.current_path@,
            final(self).nav.listing@ == old(self).nav.listing@,
    {
        self.nav.enter(name)
    }

    /// Ascend one level; see `NavState::up`.  At the root nothing
    /// changes and no backend request is issued.
    pub fn up(&mut self) -> (cmd: Option<NavCommand>)
        requires
            old(self).wf(),
        ensures
            final(self).wf(),
            final(self).session == old(self).session,
            final(self).transient_error == old(self).transient_error,
            cmd is Some <==> old(self).nav.current_path@.len() > 0,
            cmd matches Some(c) ==> c is Up,
            cmd is Some ==> final(self).nav.current_path@ == old(
                self,
            ).nav.current_path@.drop_last(),
            cmd is None ==> final(self).nav == old(self).nav,
            final(self).nav.listing@ == old(self).nav.listing@,
    {
        self.nav.up()
    }

    /// Ask the backend to re-index the remote tree; mutates nothing.
    pub fn resync(&self) -> (cmd: NavCommand)
        ensures
            cmd is Resync,
    {
        self.nav.resync()
    }

    /// A listing fetched earlier has arrived.  While a session is live
    /// it replaces the displayed listing wholesale; after a disconnect
    /// it is stale and discarded — state is left exactly as it was,
    /// and navigation stays disabled.
    pub fn deliver_listing(&mut self, entries: Vec<DirEntry>)
        requires
            old(self).wf(),
        ensures
            final(self).wf(),
            final(self).session == old(self).session,
            final(self).transient_error == old(self).transient_error,
            old(self).session.phase is Disconnected ==> *final(self) == *old(self),
            !(old(self).session.phase is Disconnected) ==> final(self).nav.listing@ == entries@
                && final(self).nav.current_path@ == old(self).nav.current_path@,
    {
        match self.session.phase {
            SessionPhase::Disconnected => {},
            _ => {
                self.nav.replace_listing(entries);
            },
        }
    }

    /// Render the state for the UI sink.  Every field is determined by
    /// the state alone: the phase and identification as held by the
    /// reducer, the path and listing as held by navigation, the
    /// control sensitivities and progress indication derived from the
    /// phase.
    pub fn snapshot(&self) -> (snap: Snapshot)
        ensures
            snap.phase == self.session.phase,
            snap.version == self.session.version,
            snap.progress_active == progress_shown(self.session.phase),
            snap.current_path@ == self.nav.current_path@,
            snap.rows@.len() == self.nav.listing@.len(),
            forall|i: int|
                0 <= i < snap.rows@.len() ==> #[trigger] snap.rows@[i].matches_entry(
                    self.nav.listing@[i],
                ),
            snap.transient_error == self.transient_error,
            snap.reload_enabled == reload_control_enabled(self.session.phase),
            snap.navigation_enabled == navigation_controls_enabled(self.session.phase),
            snap.up_enabled == (navigation_controls_enabled(self.session.phase)
                && self.nav.current_path@.len() > 0),
    {
        let version = match &self.session.version {
            Some(v) => Some(v.clone()),
            None => None,
        };
        let transient_error = match &self.transient_error {
            Some(m) => Some(m.clone()),
            None => None,
        };
        let current_path = self.nav.current_path.clone();
        proof {
            assert(current_path@ =~= self.nav.current_path@);
        }
        let mut rows: Vec<FileData> = Vec::new();
        let mut i: usize = 0;
        while i < self.nav.listing.len()
            invariant
                i <= self.nav.listing.len(),
                rows@.len() == i,
                forall|j: int|
                    0 <= j < i ==> #[trigger] rows@[j].matches_entry(self.nav.listing@[j]),
            decreases self.nav.listing.len() - i,
        {
            let entry = self.nav.listing[i].clone();
            rows.push(FileData::new(entry));
            i += 1;
        }
        let progress_active = match self.session.phase {
            SessionPhase::Synchronizing => true,
            _ => false,
        };
        let reload_enabled = match self.session.phase {
            SessionPhase::Connected | SessionPhase::Synchronized => true,
            _ => false,
        };
        let navigation_enabled = match self.session.phase {
            SessionPhase::Disconnected => false,
            _ => true,
        };
        let up_enabled = navigation_enabled && self.nav.current_path.len() > 0;
        Snapshot {
            phase: self.session.phase,
            version,
            progress_active,
            current_path,
            rows,
            transient_error,
            reload_enabled,
            up_enabled,
            navigation_enabled,
        }
    }
}

} // verus!

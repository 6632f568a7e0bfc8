//! The connection/reload state machine: the authoritative reducer that
//! consumes backend events in delivery order and maintains the session
//! phase and identification strings.

use crate::event::{Event, VersionDetails};
use vstd::prelude::*;

verus! {

/// The connection phase of a session, owned exclusively by the reducer.
#[derive(Clone, Copy, Debug, PartialEq, Eq, Structural)]
pub enum SessionPhase {
    Disconnected,
    Connected,
    Synchronizing,
    Synchronized,
}

/// The transition table: the phase after one event arrives in phase `p`.
/// An event that is not valid for the current phase is ignored rather
/// than treated as fatal.
pub open spec fn phase_after(p: SessionPhase, e: Event) -> SessionPhase {
    match e {
        Event::Connected => if p is Disconnected {
            SessionPhase::Connected
        } else {
            p
        },
        Event::VersionInfo { .. } => p,
        Event::ReloadStarted => if p is Connected || p is Synchronized {
            SessionPhase::Synchronizing
        } else {
            p
        },
        Event::ReloadProgressed => p,
        Event::ReloadFinished => if p is Synchronizing {
            SessionPhase::Synchronized
        } else {
            p
        },
        Event::Disconnected => SessionPhase::Disconnected,
        Event::Error { .. } => p,
    }
}

/// The phase reached by folding the transition table over a sequence of
/// events, starting from phase `p`.
pub open spec fn phase_of_events(p: SessionPhase, events: Seq<Event>) -> SessionPhase
    decreases events.len(),
{
    if events.len() == 0 {
        p
    } else {
        phase_after(phase_of_events(p, events.drop_last()), events.last())
    }
}

/// Whether an event arriving in phase `p` triggers a refresh of the
/// navigation listing: only a reload completing does.
pub open spec fn triggers_refresh(p: SessionPhase, e: Event) -> bool {
    p is Synchronizing && e is ReloadFinished
}

/// Whether an event arriving in phase `p` updates the stored
/// identification: only identification received while connected does.
pub open spec fn accepts_version(p: SessionPhase, e: Event) -> bool {
    p is Connected && e is VersionInfo
}

/// The stored identification after one event arrives in phase `p`
/// with identification `v` on display.
pub open spec fn version_after(
    p: SessionPhase,
    v: Option<VersionDetails>,
    e: Event,
) -> Option<VersionDetails> {
    match e {
        Event::VersionInfo { project, version } => if p is Connected {
            Some(VersionDetails { project, version })
        } else {
            v
        },
        _ => v,
    }
}

/// The identification on display after folding a sequence of events,
/// starting from phase `p` with identification `v`.
pub open spec fn version_of_events(
    p: SessionPhase,
    v: Option<VersionDetails>,
    events: Seq<Event>,
) -> Option<VersionDetails>
    decreases events.len(),
{
    if events.len() == 0 {
        v
    } else {
        version_after(
            phase_of_events(p, events.drop_last()),
            version_of_events(p, v, events.drop_last()),
            events.last(),
        )
    }
}

/// Whether an event arriving in phase `p` advances the progress
/// indication: a reload starting or stepping, in a phase where that
/// event is valid.
pub open spec fn pulses(p: SessionPhase, e: Event) -> bool {
    ||| (p is Connected || p is Synchronized) && e is ReloadStarted
    ||| p is Synchronizing && e is ReloadProgressed
}

/// Whether an event is not valid for phase `p` and is therefore
/// swallowed: it changes nothing, and is only worth a diagnostic log.
pub open spec fn event_ignored(p: SessionPhase, e: Event) -> bool {
    match e {
        Event::Connected => !(p is Disconnected),
        Event::VersionInfo { .. } => !(p is Connected),
        Event::ReloadStarted => !(p is Connected || p is Synchronized),
        Event::ReloadProgressed => !(p is Synchronizing),
        Event::ReloadFinished => !(p is Synchronizing),
        Event::Disconnected => false,
        Event::Error { .. } => false,
    }
}

/// What processing one event asks of the surrounding application:
/// whether to request a fresh listing from the backend, whether to
/// advance the progress indication, a message to surface, and whether
/// the event was swallowed as invalid for its phase (never escalated,
/// but worth logging for diagnosis).
pub struct ReducerEffect {
    pub refresh: bool,
    pub pulse: bool,
    pub notice: Option<String>,
    pub ignored: bool,
}

/// The session reducer: the single-threaded consumer of backend events.
/// It is the only writer of the phase and identification it holds; the
/// ghost history records the events delivered so far.
pub struct Session {
    pub phase: SessionPhase,
    pub version: Option<VersionDetails>,
    pub history: Ghost<Seq<Event>>,
}

impl Session {
    /// The reducer's invariant: its phase and its identification are
    /// exactly the folds of the transition table over the events
    /// delivered so far.
    pub open spec fn wf(&self) -> bool {
        &&& self.phase == phase_of_events(SessionPhase::Disconnected, self.history@)
        &&& self.version == version_of_events(SessionPhase::Disconnected, None, self.history@)
    }

    /// A fresh session: disconnected, nothing delivered yet.
    pub fn new() -> (s: Session)
        ensures
            s.wf(),
            s.phase == SessionPhase::Disconnected,
            s.version is None,
            s.history@ == Seq::<Event>::empty(),
    {
        Session { phase: SessionPhase::Disconnected, version: None, history: Ghost(Seq::empty()) }
    }

    /// Consume one event, in delivery order.  The new phase follows the
    /// transition table; identification is stored only when received
    /// while connected; an event that is not valid for the current
    /// phase is ignored.  The returned effect says what the caller must
    /// do: refresh the listing, advance the progress indication, or
    /// surface an error message.
    pub fn apply(&mut self, e: Event) -> (eff: ReducerEffect)
        requires
            old(self).wf(),
        ensures
            final(self).wf(),
            final(self).history@ == old(self).history@.push(e),
            final(self).phase == phase_after(old(self).phase, e),
            accepts_version(old(self).phase, e) ==> (e matches Event::VersionInfo {
                project,
                version,
            } ==> final(self).version == Some(VersionDetails { project, version })),
            !accepts_version(old(self).phase, e) ==> final(self).version == old(self).version,
            eff.refresh == triggers_refresh(old(self).phase, e),
            eff.pulse == pulses(old(self).phase, e),
            e matches Event::Error { message } ==> eff.notice == Some(message),
            !(e is Error) ==> eff.notice is None,
            eff.ignored == event_ignored(old(self).phase, e),
    {
        proof {
            assert(old(self).history@.push(e).drop_last() =~= old(self).history@);
        }
        self.history = Ghost(self.history@.push(e));
        let prev_phase = self.phase;
        let mut refresh = false;
        let mut pulse = false;
        let mut notice: Option<String> = None;
        let mut ignored = false;
        match e {
            Event::Connected => {
                if prev_phase == SessionPhase::Disconnected {
                    self.phase = SessionPhase::Connected;
                } else {
                    ignored = true;
                }
            },
            Event::VersionInfo { project, version } => {
                if prev_phase == SessionPhase::Connected {
                    self.version = Some(VersionDetails { project, version });
                } else {
                    ignored = true;
                }
            },
            Event::ReloadStarted => {
                if prev_phase == SessionPhase::Connected || prev_phase
                    == SessionPhase::Synchronized {
                    self.phase = SessionPhase::Synchronizing;
                    pulse = true;
                } else {
                    ignored = true;
                }
            },
            Event::ReloadProgressed => {
                if prev_phase == SessionPhase::Synchronizing {
                    pulse = true;
                } else {
                    ignored = true;
                }
            },
            Event::ReloadFinished => {
                if prev_phase == SessionPhase::Synchronizing {
                    self.phase = SessionPhase::Synchronized;
                    refresh = true;
                } else {
                    ignored = true;
                }
            },
            Event::Disconnected => {
                self.phase = SessionPhase::Disconnected;
            },
            Event::Error { message } => {
                notice = Some(message);
            },
        }
        ReducerEffect { refresh, pulse, notice, ignored }
    }

    /// The relay's channel closing unexpectedly is treated identically
    /// to an explicit disconnect: the phase transition is synthesized
    /// so the session can never freeze in a stale connected state.
    pub fn channel_closed(&mut self) -> (eff: ReducerEffect)
        requires
            old(self).wf(),
        ensures
            final(self).wf(),
            final(self).history@ == old(self).history@.push(Event::Disconnected),
            final(self).phase == SessionPhase::Disconnected,
            final(self).version == old(self).version,
            !eff.refresh,
            !eff.pulse,
            eff.notice is None,
            !eff.ignored,
    {
        self.apply(Event::Disconnected)
    }
}

/// The reducer is a pure fold: whatever interleaving of arrivals
/// produced the history, the phase and identification of a well-formed
/// session are exactly the transition table folded over its delivered
/// events in order, and are therefore determined by that sequence
/// alone.
pub proof fn lemma_reducer_is_fold(s: Session)
    requires
        s.wf(),
    ensures
        s.phase == phase_of_events(SessionPhase::Disconnected, s.history@),
        s.version == version_of_events(SessionPhase::Disconnected, None, s.history@),
{
}

/// Delivering `ReloadFinished` twice in a row is harmless: the second
/// delivery leaves the phase where the first put it, and never triggers
/// a second refresh.
pub proof fn lemma_reload_finished_idempotent(p: SessionPhase)
    ensures
        phase_after(phase_after(p, Event::ReloadFinished), Event::ReloadFinished) == phase_after(
            p,
            Event::ReloadFinished,
        ),
        p is Synchronizing ==> phase_after(p, Event::ReloadFinished) is Synchronized,
        !triggers_refresh(phase_after(p, Event::ReloadFinished), Event::ReloadFinished),
{
}

/// Events that leave every phase unchanged: identification, reload
/// progress and transient errors never move the machine on their own.
pub open spec fn keeps_phase(e: Event) -> bool {
    e is VersionInfo || e is ReloadProgressed || e is Error
}

/// A run of phase-keeping events folds to the phase it started from.
pub proof fn lemma_keeps_phase_run(p: SessionPhase, events: Seq<Event>)
    requires
        forall|i: int| 0 <= i < events.len() ==> keeps_phase(#[trigger] events[i]),
    ensures
        phase_of_events(p, events) == p,
    decreases events.len(),
{
    if events.len() > 0 {
        lemma_keeps_phase_run(p, events.drop_last());
    }
}

/// Folding a concatenation is folding the two halves in turn.
pub proof fn lemma_fold_concat(p: SessionPhase, a: Seq<Event>, b: Seq<Event>)
    ensures
        phase_of_events(p, a + b) == phase_of_events(phase_of_events(p, a), b),
    decreases b.len(),
{
    if b.len() == 0 {
        assert(a + b =~= a);
    } else {
        lemma_fold_concat(p, a, b.drop_last());
        assert((a + b).drop_last() =~= a + b.drop_last());
        assert((a + b).last() == b.last());
    }
}

/// Folding a single event is one step of the transition table.
proof fn lemma_fold_one(p: SessionPhase, e: Event)
    ensures
        phase_of_events(p, seq![e]) == phase_after(p, e),
{
    assert(seq![e].drop_last() =~= Seq::<Event>::empty());
    assert(phase_of_events(p, Seq::<Event>::empty()) == p);
}

/// Ordering: if `Connected`, `ReloadStarted` and `ReloadFinished` are
/// delivered in that relative order, with any delay and any number of
/// phase-keeping events around them, the terminal phase is
/// `Synchronized` — never `Synchronizing`.
pub proof fn lemma_connect_reload_ordering(
    before: Seq<Event>,
    between1: Seq<Event>,
    between2: Seq<Event>,
    after: Seq<Event>,
)
    requires
        forall|i: int| 0 <= i < before.len() ==> keeps_phase(#[trigger] before[i]),
        forall|i: int| 0 <= i < between1.len() ==> keeps_phase(#[trigger] between1[i]),
        forall|i: int| 0 <= i < between2.len() ==> keeps_phase(#[trigger] between2[i]),
        forall|i: int| 0 <= i < after.len() ==> keeps_phase(#[trigger] after[i]),
    ensures
        phase_of_events(
            SessionPhase::Disconnected,
            before + seq![Event::Connected] + between1 + seq![Event::ReloadStarted] + between2
                + seq![Event::ReloadFinished] + after,
        ) == SessionPhase::Synchronized,
{
    let s1 = before + seq![Event::Connected];
    let s2 = s1 + between1;
    let s3 = s2 + seq![Event::ReloadStarted];
    let s4 = s3 + between2;
    let s5 = s4 + seq![Event::ReloadFinished];
    lemma_keeps_phase_run(SessionPhase::Disconnected, before);
    lemma_fold_concat(SessionPhase::Disconnected, before, seq![Event::Connected]);
    lemma_fold_one(SessionPhase::Disconnected, Event::Connected);
    assert(phase_of_events(SessionPhase::Disconnected, s1) == SessionPhase::Connected);
    lemma_fold_concat(SessionPhase::Disconnected, s1, between1);
    lemma_keeps_phase_run(SessionPhase::Connected, between1);
    lemma_fold_concat(SessionPhase::Disconnected, s2, seq![Event::ReloadStarted]);
    lemma_fold_one(SessionPhase::Connected, Event::ReloadStarted);
    assert(phase_of_events(SessionPhase::Disconnected, s3) == SessionPhase::Synchronizing);
    lemma_fold_concat(SessionPhase::Disconnected, s3, between2);
    lemma_keeps_phase_run(SessionPhase::Synchronizing, between2);
    lemma_fold_concat(SessionPhase::Disconnected, s4, seq![Event::ReloadFinished]);
    lemma_fold_one(SessionPhase::Synchronizing, Event::ReloadFinished);
    assert(phase_of_events(SessionPhase::Disconnected, s5) == SessionPhase::Synchronized);
    lemma_fold_concat(SessionPhase::Disconnected, s5, after);
    lemma_keeps_phase_run(SessionPhase::Synchronized, after);
}

} // verus!

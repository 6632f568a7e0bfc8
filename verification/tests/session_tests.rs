use audio_session::event::Event;
use audio_session::session::{Session, SessionPhase};

fn feed(session: &mut Session, events: Vec<Event>) {
    for e in events {
        let _ = session.apply(e);
    }
}

#[test]
fn fresh_session_is_disconnected() {
    let s = Session::new();
    assert_eq!(s.phase, SessionPhase::Disconnected);
    assert!(s.version.is_none());
}

#[test]
fn connect_reload_sequence_reaches_synchronized() {
    let mut s = Session::new();
    feed(
        &mut s,
        vec![Event::Connected, Event::ReloadStarted, Event::ReloadFinished],
    );
    assert_eq!(s.phase, SessionPhase::Synchronized);
}

#[test]
fn ordering_holds_with_interleaved_neutral_events() {
    let mut s = Session::new();
    feed(
        &mut s,
        vec![
            Event::Error {
                message: String::from("early glitch"),
            },
            Event::Connected,
            Event::VersionInfo {
                project: String::from("dev1"),
                version: String::from("1.2"),
            },
            Event::ReloadStarted,
            Event::ReloadProgressed,
            Event::Error {
                message: String::from("mid glitch"),
            },
            Event::ReloadProgressed,
            Event::ReloadFinished,
            Event::Error {
                message: String::from("late glitch"),
            },
        ],
    );
    assert_eq!(s.phase, SessionPhase::Synchronized);
}

#[test]
fn reload_finished_twice_is_idempotent() {
    let mut s = Session::new();
    feed(&mut s, vec![Event::Connected, Event::ReloadStarted]);
    let first = s.apply(Event::ReloadFinished);
    assert!(first.refresh);
    assert_eq!(s.phase, SessionPhase::Synchronized);
    let second = s.apply(Event::ReloadFinished);
    assert!(!second.refresh);
    assert_eq!(s.phase, SessionPhase::Synchronized);
}

#[test]
fn resync_can_start_again_from_synchronized() {
    let mut s = Session::new();
    feed(
        &mut s,
        vec![Event::Connected, Event::ReloadStarted, Event::ReloadFinished],
    );
    let eff = s.apply(Event::ReloadStarted);
    assert_eq!(s.phase, SessionPhase::Synchronizing);
    assert!(eff.pulse);
}

#[test]
fn invalid_events_are_ignored() {
    let mut s = Session::new();
    let eff = s.apply(Event::ReloadProgressed);
    assert_eq!(s.phase, SessionPhase::Disconnected);
    assert!(!eff.refresh);
    assert!(!eff.pulse);
    assert!(eff.ignored);

    let eff = s.apply(Event::ReloadFinished);
    assert_eq!(s.phase, SessionPhase::Disconnected);
    assert!(!eff.refresh);
    assert!(eff.ignored);

    // A second connect while already connected changes nothing.
    let first = s.apply(Event::Connected);
    let second = s.apply(Event::Connected);
    assert_eq!(s.phase, SessionPhase::Connected);
    assert!(!first.ignored);
    assert!(second.ignored);
}

#[test]
fn version_is_stored_only_while_connected() {
    let mut s = Session::new();
    let _ = s.apply(Event::VersionInfo {
        project: String::from("ghost"),
        version: String::from("0.0"),
    });
    assert!(s.version.is_none());

    let _ = s.apply(Event::Connected);
    let _ = s.apply(Event::VersionInfo {
        project: String::from("dev1"),
        version: String::from("1.2"),
    });
    let v = s.version.as_ref().expect("version stored after connect");
    assert_eq!(v.project, "dev1");
    assert_eq!(v.version, "1.2");

    // A later reload does not clear it.
    let _ = s.apply(Event::ReloadStarted);
    assert!(s.version.is_some());
}

#[test]
fn disconnect_is_reachable_from_every_phase() {
    for prefix in [
        vec![],
        vec![Event::Connected],
        vec![Event::Connected, Event::ReloadStarted],
        vec![Event::Connected, Event::ReloadStarted, Event::ReloadFinished],
    ] {
        let mut s = Session::new();
        feed(&mut s, prefix);
        let _ = s.apply(Event::Disconnected);
        assert_eq!(s.phase, SessionPhase::Disconnected);
    }
}

#[test]
fn error_event_surfaces_notice_without_phase_change() {
    let mut s = Session::new();
    let _ = s.apply(Event::Connected);
    let eff = s.apply(Event::Error {
        message: String::from("device busy"),
    });
    assert_eq!(s.phase, SessionPhase::Connected);
    assert_eq!(eff.notice.as_deref(), Some("device busy"));
    assert!(!eff.refresh);
    assert!(!eff.pulse);
    assert!(!eff.ignored);
}

#[test]
fn channel_closed_synthesizes_disconnect() {
    let mut s = Session::new();
    let _ = s.apply(Event::Connected);
    let eff = s.channel_closed();
    assert_eq!(s.phase, SessionPhase::Disconnected);
    assert!(!eff.refresh);
    assert!(eff.notice.is_none());
}

#[test]
fn progress_pulses_only_during_valid_reload_phases() {
    let mut s = Session::new();
    let _ = s.apply(Event::Connected);
    let start = s.apply(Event::ReloadStarted);
    assert!(start.pulse);
    let step = s.apply(Event::ReloadProgressed);
    assert!(step.pulse);
    let stop = s.apply(Event::ReloadFinished);
    assert!(!stop.pulse);
    let stray = s.apply(Event::ReloadProgressed);
    assert!(!stray.pulse);
}

use audio_session::client::Client;
use audio_session::event::{DirEntry, Event};
use audio_session::navigation::NavCommand;
use audio_session::session::SessionPhase;

fn device_listing() -> Vec<DirEntry> {
    vec![
        DirEntry::Directory {
            name: String::from("music"),
        },
        DirEntry::File {
            name: String::from("readme.txt"),
        },
    ]
}

#[test]
fn end_to_end_session_reaches_synchronized_snapshot() {
    let mut c = Client::new();
    let _ = c.handle_event(Event::Connected);
    let _ = c.handle_event(Event::VersionInfo {
        project: String::from("dev1"),
        version: String::from("1.2"),
    });
    let _ = c.handle_event(Event::ReloadStarted);
    let _ = c.handle_event(Event::ReloadProgressed);
    let _ = c.handle_event(Event::ReloadProgressed);
    let eff = c.handle_event(Event::ReloadFinished);
    assert!(eff.refresh);
    // The triggered refresh delivers the collaborator's listing.
    c.deliver_listing(device_listing());

    let snap = c.snapshot();
    assert_eq!(snap.phase, SessionPhase::Synchronized);
    let v = snap.version.as_ref().expect("version shown");
    assert_eq!(v.project, "dev1");
    assert_eq!(v.version, "1.2");
    assert!(!snap.progress_active);
    assert!(snap.reload_enabled);
    assert!(snap.navigation_enabled);
    assert_eq!(snap.rows.len(), 2);
    assert!(snap.rows[0].is_directory());
    assert_eq!(snap.rows[0].name(), "music");
    assert!(!snap.rows[1].is_directory());
    assert_eq!(snap.rows[1].name(), "readme.txt");
    assert!(snap.transient_error.is_none());
}

#[test]
fn enter_scenario_directory_accepted_file_rejected() {
    let mut c = Client::new();
    let _ = c.handle_event(Event::Connected);
    c.deliver_listing(device_listing());

    let cmd = c.enter(&String::from("music"));
    match cmd {
        Some(NavCommand::Enter { name }) => assert_eq!(name, "music"),
        _ => panic!("entering a listed directory must produce a backend call"),
    }
    assert_eq!(c.nav.current_path, vec![String::from("music")]);

    let cmd = c.enter(&String::from("readme.txt"));
    assert!(cmd.is_none(), "a file must not be entered");
    assert_eq!(c.nav.current_path, vec![String::from("music")]);
}

#[test]
fn stale_listing_after_disconnect_is_discarded() {
    let mut c = Client::new();
    let _ = c.handle_event(Event::Connected);
    c.deliver_listing(vec![DirEntry::Directory {
        name: String::from("a"),
    }]);
    let cmd = c.enter(&String::from("a"));
    assert!(cmd.is_some());
    // The disconnect wins the race against the listing fetch for "a".
    let _ = c.handle_event(Event::Disconnected);
    let path_before = c.nav.current_path.clone();
    let listing_len_before = c.nav.listing.len();
    c.deliver_listing(vec![
        DirEntry::File {
            name: String::from("late-a.txt"),
        },
        DirEntry::File {
            name: String::from("late-b.txt"),
        },
    ]);
    assert_eq!(c.nav.current_path, path_before);
    assert_eq!(c.nav.listing.len(), listing_len_before);
    let snap = c.snapshot();
    assert!(!snap.navigation_enabled);
    assert!(!snap.up_enabled);
    assert!(!snap.reload_enabled);
}

#[test]
fn fresh_snapshot_shows_disconnected_root() {
    let c = Client::new();
    let snap = c.snapshot();
    assert_eq!(snap.phase, SessionPhase::Disconnected);
    assert!(snap.version.is_none());
    assert!(!snap.progress_active);
    assert!(snap.current_path.is_empty());
    assert!(snap.rows.is_empty());
    assert!(snap.transient_error.is_none());
    assert!(!snap.reload_enabled);
    assert!(!snap.up_enabled);
    assert!(!snap.navigation_enabled);
}

#[test]
fn transient_error_is_shown_once_and_cleared() {
    let mut c = Client::new();
    let _ = c.handle_event(Event::Connected);
    let eff = c.handle_event(Event::Error {
        message: String::from("transfer failed"),
    });
    assert_eq!(eff.notice.as_deref(), Some("transfer failed"));
    let snap = c.snapshot();
    assert_eq!(snap.transient_error.as_deref(), Some("transfer failed"));
    assert_eq!(snap.phase, SessionPhase::Connected);

    let _ = c.handle_event(Event::ReloadStarted);
    let snap = c.snapshot();
    assert!(snap.transient_error.is_none());
    assert!(snap.progress_active);
    assert!(!snap.reload_enabled);
}

#[test]
fn up_button_sensitivity_follows_path_and_phase() {
    let mut c = Client::new();
    let _ = c.handle_event(Event::Connected);
    c.deliver_listing(vec![DirEntry::Directory {
        name: String::from("music"),
    }]);
    assert!(!c.snapshot().up_enabled);
    let _ = c.enter(&String::from("music"));
    assert!(c.snapshot().up_enabled);
    let _ = c.up();
    assert!(!c.snapshot().up_enabled);
}

#[test]
fn channel_closed_behaves_like_disconnect() {
    let mut c = Client::new();
    let _ = c.handle_event(Event::Connected);
    let _ = c.handle_event(Event::VersionInfo {
        project: String::from("dev1"),
        version: String::from("1.2"),
    });
    c.channel_closed();
    let snap = c.snapshot();
    assert_eq!(snap.phase, SessionPhase::Disconnected);
    assert!(!snap.navigation_enabled);
    // Identification learned earlier is kept for display.
    assert!(snap.version.is_some());
}

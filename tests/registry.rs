use music_module::models::{MprisMetadata, MprisPlayback, PlayerClient, PlayerState};
use music_module::player_manager::{Announcement, PlayerRegistry};

fn meta(id: &str, title: &str) -> MprisMetadata {
    let mut m = MprisMetadata::new(id.to_string());
    m.artist = vec!["Rick Astley".to_string()];
    m.album = Some("Whenever You Need Somebody".to_string());
    m.title = Some(title.to_string());
    m
}

fn status(id: &str, s: &str) -> MprisPlayback {
    MprisPlayback::new_with_playing(id.to_string(), s.to_string())
}

fn published_id(a: Announcement) -> Option<String> {
    match a {
        Announcement::Publish(s) => Some(s.player_id),
        _ => None,
    }
}

#[test]
fn election_follows_most_recent_playing_player() {
    let mut reg = PlayerRegistry::new();
    reg.handle_metadata(meta("A", "a"), Some("Player A".to_string()), 1);
    reg.handle_metadata(meta("B", "b"), Some("Player B".to_string()), 2);
    let r = reg.handle_playback(status("A", "Playing"), None, 10);
    assert_eq!(published_id(r), Some("A".to_string()));
    let r = reg.handle_playback(status("B", "Paused"), None, 20);
    assert_eq!(published_id(r), Some("A".to_string()));
    let r = reg.handle_playback(status("B", "Playing"), None, 25);
    assert_eq!(published_id(r), Some("B".to_string()));
    let r = reg.handle_playback(status("B", "Paused"), None, 30);
    assert_eq!(published_id(r), Some("A".to_string()));
    assert_eq!(reg.set_most_recent_player_as_active(), Some(0));
}

#[test]
fn nothing_playing_when_no_player_plays() {
    let mut reg = PlayerRegistry::new();
    reg.handle_metadata(meta("A", "a"), Some("Player A".to_string()), 1);
    reg.handle_playback(status("A", "Playing"), None, 2);
    let r = reg.handle_playback(status("A", "Stopped"), None, 3);
    assert!(matches!(r, Announcement::NothingPlaying));
    assert_eq!(reg.set_most_recent_player_as_active(), None);
}

#[test]
fn tie_goes_to_first_seen_player() {
    let mut reg = PlayerRegistry::new();
    reg.handle_metadata(meta("A", "a"), Some("Player A".to_string()), 1);
    reg.handle_metadata(meta("B", "b"), Some("Player B".to_string()), 1);
    reg.handle_metadata(meta("C", "c"), Some("Player C".to_string()), 1);
    reg.handle_playback(status("A", "Playing"), None, 5);
    reg.handle_playback(status("B", "Playing"), None, 5);
    let r = reg.handle_playback(status("C", "Paused"), None, 6);
    assert_eq!(published_id(r), Some("A".to_string()));
}

#[test]
fn incomplete_metadata_is_never_published_or_elected() {
    let mut reg = PlayerRegistry::new();
    let mut m = meta("A", "a");
    m.album = None;
    assert_eq!(reg.handle_metadata(m, Some("Player A".to_string()), 1), None);
    let r = reg.handle_playback(status("A", "Playing"), None, 2);
    assert!(matches!(r, Announcement::Silent));
    reg.handle_metadata(meta("B", "b"), Some("Player B".to_string()), 3);
    let r = reg.handle_playback(status("B", "Paused"), None, 4);
    assert!(matches!(r, Announcement::NothingPlaying));
    let mut m = meta("C", "c");
    m.artist = vec![];
    reg.handle_metadata(m, Some("Player C".to_string()), 5);
    assert_eq!(reg.set_most_recent_player_as_active(), None);
}

#[test]
fn metadata_update_publishes_state() {
    let mut reg = PlayerRegistry::new();
    let first = reg.handle_metadata(meta("A", "one"), Some("Player A".to_string()), 1).unwrap();
    assert_eq!(first.title, "one");
    assert_eq!(first.player_name, "Player A");
    assert_eq!(first.playing, None);
    let second = reg.handle_metadata(meta("A", "two"), None, 2).unwrap();
    assert_eq!(second.title, "two");
    assert_eq!(reg.len(), 1);
    assert_eq!(reg.get(0).last_updated, 2);
}

#[test]
fn unseen_player_without_identity_is_dropped() {
    let mut reg = PlayerRegistry::new();
    assert_eq!(reg.handle_metadata(meta("A", "a"), None, 1), None);
    assert_eq!(reg.len(), 0);
    let r = reg.handle_playback(status("A", "Playing"), None, 2);
    assert!(matches!(r, Announcement::Silent));
    assert!(!reg.contains(&"A".to_string()));
}

#[test]
fn playback_of_unseen_player_uses_backfill() {
    let mut reg = PlayerRegistry::new();
    let r = reg.handle_playback(
        status("A", "Playing"),
        Some(("Player A".to_string(), meta("other", "song"))),
        7,
    );
    match r {
        Announcement::Publish(s) => {
            assert_eq!(s.player_id, "A");
            assert_eq!(s.player_name, "Player A");
            assert_eq!(s.title, "song");
            assert_eq!(s.playing, Some(true));
        }
        _ => panic!("expected a published state"),
    }
    assert_eq!(reg.find(&"A".to_string()), Some(0));
}

#[test]
fn player_state_requires_all_fields() {
    let full = PlayerState::from_mpris_data("P".to_string(), meta("A", "t"), None).unwrap();
    assert_eq!(full.artist, "Rick Astley");
    assert_eq!(full.album, "Whenever You Need Somebody");
    assert_eq!(full.playing, None);
    let mut m = meta("A", "t");
    m.title = None;
    assert_eq!(PlayerState::from_mpris_data("P".to_string(), m, None), None);
    let paused = PlayerState::from_mpris_data(
        "P".to_string(),
        meta("A", "t"),
        Some(status("A", "Paused")),
    )
    .unwrap();
    assert_eq!(paused.playing, Some(false));
}

#[test]
fn player_client_tracks_status() {
    let mut c = PlayerClient::new("P".to_string(), meta("A", "t"));
    assert!(!c.playing());
    let s = c.update_playback_state(status("A", "Playing"), 4).unwrap();
    assert!(c.playing());
    assert_eq!(s.playing, Some(true));
    assert_eq!(c.last_updated, 4);
    assert!(MprisPlayback::new_with_playing("A".to_string(), "Playing".to_string()).is_playing());
    assert!(!MprisPlayback::new("A".to_string()).is_playing());
    assert!(!c.update_metadata(meta("A", "u"), 5).is_none());
}
